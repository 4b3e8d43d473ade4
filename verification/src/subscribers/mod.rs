//! Subscribers: consumers of key events that are called for each event, and
//! the factory that picks them by name.
use vstd::prelude::*;

pub mod event_history;

use crate::kbd_event::KbdEvent;
use crate::subscribers::event_history::{history_db_path, spec_history_db_path};
use crate::text::str_eq;

verus! {

/// A consumer of key events that is called for each event.
pub trait KeyboardEventSubscriber {
    fn event_cb(&mut self, event: KbdEvent);

    fn describe(&self) -> &'static str;
}

/// What the subscribers are made from: the names of the subscribers to
/// create, and the directory where they keep their state.
pub struct SubscriberArgs {
    pub subscribers: Vec<String>,
    pub state_dir: String,
}

/// A subscriber to create.
#[derive(Debug, PartialEq, Eq)]
pub enum SubscriberSpec {
    /// One that echoes the events to the standard output.
    Echo,
    /// One that counts the presses in the database at `db_path`.
    History { db_path: String },
}

/// The names of the subscribers there are.
pub open spec fn spec_known_subscriber(name: Seq<char>) -> bool {
    name == "echo"@ || name == "history"@
}

/// Whether `s` is the subscriber named `name`, with its state in `state_dir`.
pub open spec fn spec_is_subscriber_for(s: SubscriberSpec, name: Seq<char>, state_dir: Seq<char>) -> bool {
    match s {
        SubscriberSpec::Echo => name == "echo"@,
        SubscriberSpec::History { db_path } => name == "history"@ && db_path@
            == spec_history_db_path(state_dir),
    }
}

/// The known names among `names`, in order.
pub open spec fn spec_known_names(names: Seq<String>) -> Seq<Seq<char>>
    decreases names.len(),
{
    if names.len() == 0 {
        Seq::empty()
    } else if spec_known_subscriber(names.last()@) {
        spec_known_names(names.drop_last()).push(names.last()@)
    } else {
        spec_known_names(names.drop_last())
    }
}

/// Makes subscribers by name.
pub struct KeyboardEventSubscriberFactory {}

impl KeyboardEventSubscriberFactory {
    pub fn new() -> (f: Self) {
        KeyboardEventSubscriberFactory {  }
    }

    /// The subscriber named `name`, if there is one by that name.
    pub fn create_subscriber(name: &str, cli_args: &SubscriberArgs) -> (s: Option<SubscriberSpec>)
        ensures
            s is Some <==> spec_known_subscriber(name@),
            s matches Some(sub) ==> spec_is_subscriber_for(sub, name@, cli_args.state_dir@),
    {
        if str_eq(name, "echo") {
            Some(SubscriberSpec::Echo)
        } else if str_eq(name, "history") {
            Some(SubscriberSpec::History { db_path: history_db_path(cli_args.state_dir.as_str()) })
        } else {
            None
        }
    }

    /// The subscribers that the arguments name, in order; the unknown names
    /// are left out.
    pub fn create_subscribers(cli_args: &SubscriberArgs) -> (subs: Vec<SubscriberSpec>)
        ensures
            subs@.len() == spec_known_names(cli_args.subscribers@).len(),
            forall|i: int|
                0 <= i < subs@.len() ==> spec_is_subscriber_for(
                    #[trigger] subs@[i],
                    spec_known_names(cli_args.subscribers@)[i],
                    cli_args.state_dir@,
                ),
    {
        let names = &cli_args.subscribers;
        let mut subs: Vec<SubscriberSpec> = Vec::new();
        let mut i: usize = 0;
        while i < names.len()
            invariant
                i <= names@.len(),
                names == &cli_args.subscribers,
                subs@.len() == spec_known_names(names@.subrange(0, i as int)).len(),
                forall|j: int|
                    0 <= j < subs@.len() ==> spec_is_subscriber_for(
                        #[trigger] subs@[j],
                        spec_known_names(names@.subrange(0, i as int))[j],
                        cli_args.state_dir@,
                    ),
            decreases names@.len() - i,
        {
            proof {
                assert(names@.subrange(0, i + 1).drop_last() =~= names@.subrange(0, i as int));
            }
            match Self::create_subscriber(names[i].as_str(), cli_args) {
                Some(s) => subs.push(s),
                None => {},
            }
            i = i + 1;
        }
        assert(names@.subrange(0, i as int) =~= names@);
        subs
    }
}

} // verus!
