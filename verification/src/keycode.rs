use vstd::prelude::*;

verus! {

/// A key code of the Linux input subsystem: each `KEY_*` constant of
/// `linux/input-event-codes.h` with a value of its own, named by the first
/// constant that carries that value.
#[allow(non_camel_case_types)]
#[derive(Debug, Clone, Copy, PartialEq, Eq, Hash, Structural)]
pub enum Keycode {
    KEY_RESERVED,
    KEY_ESC,
    KEY_1,
    KEY_2,
    KEY_3,
    KEY_4,
    KEY_5,
    KEY_6,
    KEY_7,
    KEY_8,
    KEY_9,
    KEY_0,
    KEY_MINUS,
    KEY_EQUAL,
    KEY_BACKSPACE,
    KEY_TAB,
    KEY_Q,
    KEY_W,
    KEY_E,
    KEY_R,
    KEY_T,
    KEY_Y,
    KEY_U,
    KEY_I,
    KEY_O,
    KEY_P,
    KEY_LEFTBRACE,
    KEY_RIGHTBRACE,
    KEY_ENTER,
    KEY_LEFTCTRL,
    KEY_A,
    KEY_S,
    KEY_D,
    KEY_F,
    KEY_G,
    KEY_H,
    KEY_J,
    KEY_K,
    KEY_L,
    KEY_SEMICOLON,
    KEY_APOSTROPHE,
    KEY_GRAVE,
    KEY_LEFTSHIFT,
    KEY_BACKSLASH,
    KEY_Z,
    KEY_X,
    KEY_C,
    KEY_V,
    KEY_B,
    KEY_N,
    KEY_M,
    KEY_COMMA,
    KEY_DOT,
    KEY_SLASH,
    KEY_RIGHTSHIFT,
    KEY_KPASTERISK,
    KEY_LEFTALT,
    KEY_SPACE,
    KEY_CAPSLOCK,
    KEY_F1,
    KEY_F2,
    KEY_F3,
    KEY_F4,
    KEY_F5,
    KEY_F6,
    KEY_F7,
    KEY_F8,
    KEY_F9,
    KEY_F10,
    KEY_NUMLOCK,
    KEY_SCROLLLOCK,
    KEY_KP7,
    KEY_KP8,
    KEY_KP9,
    KEY_KPMINUS,
    KEY_KP4,
    KEY_KP5,
    KEY_KP6,
    KEY_KPPLUS,
    KEY_KP1,
    KEY_KP2,
    KEY_KP3,
    KEY_KP0,
    KEY_KPDOT,
    KEY_ZENKAKUHANKAKU,
    KEY_102ND,
    KEY_F11,
    KEY_F12,
    KEY_RO,
    KEY_KATAKANA,
    KEY_HIRAGANA,
    KEY_HENKAN,
    KEY_KATAKANAHIRAGANA,
    KEY_MUHENKAN,
    KEY_KPJPCOMMA,
    KEY_KPENTER,
    KEY_RIGHTCTRL,
    KEY_KPSLASH,
    KEY_SYSRQ,
    KEY_RIGHTALT,
    KEY_LINEFEED,
    KEY_HOME,
    KEY_UP,
    KEY_PAGEUP,
    KEY_LEFT,
    KEY_RIGHT,
    KEY_END,
    KEY_DOWN,
    KEY_PAGEDOWN,
    KEY_INSERT,
    KEY_DELETE,
    KEY_MACRO,
    KEY_MUTE,
    KEY_VOLUMEDOWN,
    KEY_VOLUMEUP,
    KEY_POWER,
    KEY_KPEQUAL,
    KEY_KPPLUSMINUS,
    KEY_PAUSE,
    KEY_SCALE,
    KEY_KPCOMMA,
    KEY_HANGEUL,
    KEY_HANJA,
    KEY_YEN,
    KEY_LEFTMETA,
    KEY_RIGHTMETA,
    KEY_COMPOSE,
    KEY_STOP,
    KEY_AGAIN,
    KEY_PROPS,
    KEY_UNDO,
    KEY_FRONT,
    KEY_COPY,
    KEY_OPEN,
    KEY_PASTE,
    KEY_FIND,
    KEY_CUT,
    KEY_HELP,
    KEY_MENU,
    KEY_CALC,
    KEY_SETUP,
    KEY_SLEEP,
    KEY_WAKEUP,
    KEY_FILE,
    KEY_SENDFILE,
    KEY_DELETEFILE,
    KEY_XFER,
    KEY_PROG1,
    KEY_PROG2,
    KEY_WWW,
    KEY_MSDOS,
    KEY_COFFEE,
    KEY_ROTATE_DISPLAY,
    KEY_CYCLEWINDOWS,
    KEY_MAIL,
    KEY_BOOKMARKS,
    KEY_COMPUTER,
    KEY_BACK,
    KEY_FORWARD,
    KEY_CLOSECD,
    KEY_EJECTCD,
    KEY_EJECTCLOSECD,
    KEY_NEXTSONG,
    KEY_PLAYPAUSE,
    KEY_PREVIOUSSONG,
    KEY_STOPCD,
    KEY_RECORD,
    KEY_REWIND,
    KEY_PHONE,
    KEY_ISO,
    KEY_CONFIG,
    KEY_HOMEPAGE,
    KEY_REFRESH,
    KEY_EXIT,
    KEY_MOVE,
    KEY_EDIT,
    KEY_SCROLLUP,
    KEY_SCROLLDOWN,
    KEY_KPLEFTPAREN,
    KEY_KPRIGHTPAREN,
    KEY_NEW,
    KEY_REDO,
    KEY_F13,
    KEY_F14,
    KEY_F15,
    KEY_F16,
    KEY_F17,
    KEY_F18,
    KEY_F19,
    KEY_F20,
    KEY_F21,
    KEY_F22,
    KEY_F23,
    KEY_F24,
    KEY_PLAYCD,
    KEY_PAUSECD,
    KEY_PROG3,
    KEY_PROG4,
    KEY_ALL_APPLICATIONS,
    KEY_SUSPEND,
    KEY_CLOSE,
    KEY_PLAY,
    KEY_FASTFORWARD,
    KEY_BASSBOOST,
    KEY_PRINT,
    KEY_HP,
    KEY_CAMERA,
    KEY_SOUND,
    KEY_QUESTION,
    KEY_EMAIL,
    KEY_CHAT,
    KEY_SEARCH,
    KEY_CONNECT,
    KEY_FINANCE,
    KEY_SPORT,
    KEY_SHOP,
    KEY_ALTERASE,
    KEY_CANCEL,
    KEY_BRIGHTNESSDOWN,
    KEY_BRIGHTNESSUP,
    KEY_MEDIA,
    KEY_SWITCHVIDEOMODE,
    KEY_KBDILLUMTOGGLE,
    KEY_KBDILLUMDOWN,
    KEY_KBDILLUMUP,
    KEY_SEND,
    KEY_REPLY,
    KEY_FORWARDMAIL,
    KEY_SAVE,
    KEY_DOCUMENTS,
    KEY_BATTERY,
    KEY_BLUETOOTH,
    KEY_WLAN,
    KEY_UWB,
    KEY_UNKNOWN,
    KEY_VIDEO_NEXT,
    KEY_VIDEO_PREV,
    KEY_BRIGHTNESS_CYCLE,
    KEY_BRIGHTNESS_AUTO,
    KEY_DISPLAY_OFF,
    KEY_WWAN,
    KEY_RFKILL,
    KEY_MICMUTE,
    KEY_OK,
    KEY_SELECT,
    KEY_GOTO,
    KEY_CLEAR,
    KEY_POWER2,
    KEY_OPTION,
    KEY_INFO,
    KEY_TIME,
    KEY_VENDOR,
    KEY_ARCHIVE,
    KEY_PROGRAM,
    KEY_CHANNEL,
    KEY_FAVORITES,
    KEY_EPG,
    KEY_PVR,
    KEY_MHP,
    KEY_LANGUAGE,
    KEY_TITLE,
    KEY_SUBTITLE,
    KEY_ANGLE,
    KEY_FULL_SCREEN,
    KEY_MODE,
    KEY_KEYBOARD,
    KEY_ASPECT_RATIO,
    KEY_PC,
    KEY_TV,
    KEY_TV2,
    KEY_VCR,
    KEY_VCR2,
    KEY_SAT,
    KEY_SAT2,
    KEY_CD,
    KEY_TAPE,
    KEY_RADIO,
    KEY_TUNER,
    KEY_PLAYER,
    KEY_TEXT,
    KEY_DVD,
    KEY_AUX,
    KEY_MP3,
    KEY_AUDIO,
    KEY_VIDEO,
    KEY_DIRECTORY,
    KEY_LIST,
    KEY_MEMO,
    KEY_CALENDAR,
    KEY_RED,
    KEY_GREEN,
    KEY_YELLOW,
    KEY_BLUE,
    KEY_CHANNELUP,
    KEY_CHANNELDOWN,
    KEY_FIRST,
    KEY_LAST,
    KEY_AB,
    KEY_NEXT,
    KEY_RESTART,
    KEY_SLOW,
    KEY_SHUFFLE,
    KEY_BREAK,
    KEY_PREVIOUS,
    KEY_DIGITS,
    KEY_TEEN,
    KEY_TWEN,
    KEY_VIDEOPHONE,
    KEY_GAMES,
    KEY_ZOOMIN,
    KEY_ZOOMOUT,
    KEY_ZOOMRESET,
    KEY_WORDPROCESSOR,
    KEY_EDITOR,
    KEY_SPREADSHEET,
    KEY_GRAPHICSEDITOR,
    KEY_PRESENTATION,
    KEY_DATABASE,
    KEY_NEWS,
    KEY_VOICEMAIL,
    KEY_ADDRESSBOOK,
    KEY_MESSENGER,
    KEY_DISPLAYTOGGLE,
    KEY_SPELLCHECK,
    KEY_LOGOFF,
    KEY_DOLLAR,
    KEY_EURO,
    KEY_FRAMEBACK,
    KEY_FRAMEFORWARD,
    KEY_CONTEXT_MENU,
    KEY_MEDIA_REPEAT,
    KEY_10CHANNELSUP,
    KEY_10CHANNELSDOWN,
    KEY_IMAGES,
    KEY_NOTIFICATION_CENTER,
    KEY_PICKUP_PHONE,
    KEY_HANGUP_PHONE,
    KEY_LINK_PHONE,
    KEY_DEL_EOL,
    KEY_DEL_EOS,
    KEY_INS_LINE,
    KEY_DEL_LINE,
    KEY_FN,
    KEY_FN_ESC,
    KEY_FN_F1,
    KEY_FN_F2,
    KEY_FN_F3,
    KEY_FN_F4,
    KEY_FN_F5,
    KEY_FN_F6,
    KEY_FN_F7,
    KEY_FN_F8,
    KEY_FN_F9,
    KEY_FN_F10,
    KEY_FN_F11,
    KEY_FN_F12,
    KEY_FN_1,
    KEY_FN_2,
    KEY_FN_D,
    KEY_FN_E,
    KEY_FN_F,
    KEY_FN_S,
    KEY_FN_B,
    KEY_FN_RIGHT_SHIFT,
    KEY_BRL_DOT1,
    KEY_BRL_DOT2,
    KEY_BRL_DOT3,
    KEY_BRL_DOT4,
    KEY_BRL_DOT5,
    KEY_BRL_DOT6,
    KEY_BRL_DOT7,
    KEY_BRL_DOT8,
    KEY_BRL_DOT9,
    KEY_BRL_DOT10,
    KEY_NUMERIC_0,
    KEY_NUMERIC_1,
    KEY_NUMERIC_2,
    KEY_NUMERIC_3,
    KEY_NUMERIC_4,
    KEY_NUMERIC_5,
    KEY_NUMERIC_6,
    KEY_NUMERIC_7,
    KEY_NUMERIC_8,
    KEY_NUMERIC_9,
    KEY_NUMERIC_STAR,
    KEY_NUMERIC_POUND,
    KEY_NUMERIC_A,
    KEY_NUMERIC_B,
    KEY_NUMERIC_C,
    KEY_NUMERIC_D,
    KEY_CAMERA_FOCUS,
    KEY_WPS_BUTTON,
    KEY_TOUCHPAD_TOGGLE,
    KEY_TOUCHPAD_ON,
    KEY_TOUCHPAD_OFF,
    KEY_CAMERA_ZOOMIN,
    KEY_CAMERA_ZOOMOUT,
    KEY_CAMERA_UP,
    KEY_CAMERA_DOWN,
    KEY_CAMERA_LEFT,
    KEY_CAMERA_RIGHT,
    KEY_ATTENDANT_ON,
    KEY_ATTENDANT_OFF,
    KEY_ATTENDANT_TOGGLE,
    KEY_LIGHTS_TOGGLE,
    KEY_ALS_TOGGLE,
    KEY_ROTATE_LOCK_TOGGLE,
    KEY_REFRESH_RATE_TOGGLE,
    KEY_BUTTONCONFIG,
    KEY_TASKMANAGER,
    KEY_JOURNAL,
    KEY_CONTROLPANEL,
    KEY_APPSELECT,
    KEY_SCREENSAVER,
    KEY_VOICECOMMAND,
    KEY_ASSISTANT,
    KEY_KBD_LAYOUT_NEXT,
    KEY_EMOJI_PICKER,
    KEY_DICTATE,
    KEY_BRIGHTNESS_MIN,
    KEY_BRIGHTNESS_MAX,
    KEY_KBDINPUTASSIST_PREV,
    KEY_KBDINPUTASSIST_NEXT,
    KEY_KBDINPUTASSIST_PREVGROUP,
    KEY_KBDINPUTASSIST_NEXTGROUP,
    KEY_KBDINPUTASSIST_ACCEPT,
    KEY_KBDINPUTASSIST_CANCEL,
    KEY_RIGHT_UP,
    KEY_RIGHT_DOWN,
    KEY_LEFT_UP,
    KEY_LEFT_DOWN,
    KEY_ROOT_MENU,
    KEY_MEDIA_TOP_MENU,
    KEY_NUMERIC_11,
    KEY_NUMERIC_12,
    KEY_AUDIO_DESC,
    KEY_3D_MODE,
    KEY_NEXT_FAVORITE,
    KEY_STOP_RECORD,
    KEY_PAUSE_RECORD,
    KEY_VOD,
    KEY_UNMUTE,
    KEY_FASTREVERSE,
    KEY_SLOWREVERSE,
    KEY_DATA,
    KEY_ONSCREEN_KEYBOARD,
    KEY_PRIVACY_SCREEN_TOGGLE,
    KEY_SELECTIVE_SCREENSHOT,
    KEY_NEXT_ELEMENT,
    KEY_PREVIOUS_ELEMENT,
    KEY_AUTOPILOT_ENGAGE_TOGGLE,
    KEY_MARK_WAYPOINT,
    KEY_SOS,
    KEY_NAV_CHART,
    KEY_FISHING_CHART,
    KEY_SINGLE_RANGE_RADAR,
    KEY_DUAL_RANGE_RADAR,
    KEY_RADAR_OVERLAY,
    KEY_TRADITIONAL_SONAR,
    KEY_CLEARVU_SONAR,
    KEY_SIDEVU_SONAR,
    KEY_NAV_INFO,
    KEY_BRIGHTNESS_MENU,
    KEY_MACRO1,
    KEY_MACRO2,
    KEY_MACRO3,
    KEY_MACRO4,
    KEY_MACRO5,
    KEY_MACRO6,
    KEY_MACRO7,
    KEY_MACRO8,
    KEY_MACRO9,
    KEY_MACRO10,
    KEY_MACRO11,
    KEY_MACRO12,
    KEY_MACRO13,
    KEY_MACRO14,
    KEY_MACRO15,
    KEY_MACRO16,
    KEY_MACRO17,
    KEY_MACRO18,
    KEY_MACRO19,
    KEY_MACRO20,
    KEY_MACRO21,
    KEY_MACRO22,
    KEY_MACRO23,
    KEY_MACRO24,
    KEY_MACRO25,
    KEY_MACRO26,
    KEY_MACRO27,
    KEY_MACRO28,
    KEY_MACRO29,
    KEY_MACRO30,
    KEY_MACRO_RECORD_START,
    KEY_MACRO_RECORD_STOP,
    KEY_MACRO_PRESET_CYCLE,
    KEY_MACRO_PRESET1,
    KEY_MACRO_PRESET2,
    KEY_MACRO_PRESET3,
    KEY_KBD_LCD_MENU1,
    KEY_KBD_LCD_MENU2,
    KEY_KBD_LCD_MENU3,
    KEY_KBD_LCD_MENU4,
    KEY_KBD_LCD_MENU5,
    KEY_MAX,
    KEY_CNT,
}

impl Keycode {
    /// The numeric value of the key code.
    pub open spec fn spec_code(self) -> u16 {
        match self {
            Keycode::KEY_RESERVED => 0,
            Keycode::KEY_ESC => 1,
            Keycode::KEY_1 => 2,
            Keycode::KEY_2 => 3,
            Keycode::KEY_3 => 4,
            Keycode::KEY_4 => 5,
            Keycode::KEY_5 => 6,
            Keycode::KEY_6 => 7,
            Keycode::KEY_7 => 8,
            Keycode::KEY_8 => 9,
            Keycode::KEY_9 => 10,
            Keycode::KEY_0 => 11,
            Keycode::KEY_MINUS => 12,
            Keycode::KEY_EQUAL => 13,
            Keycode::KEY_BACKSPACE => 14,
            Keycode::KEY_TAB => 15,
            Keycode::KEY_Q => 16,
            Keycode::KEY_W => 17,
            Keycode::KEY_E => 18,
            Keycode::KEY_R => 19,
            Keycode::KEY_T => 20,
            Keycode::KEY_Y => 21,
            Keycode::KEY_U => 22,
            Keycode::KEY_I => 23,
            Keycode::KEY_O => 24,
            Keycode::KEY_P => 25,
            Keycode::KEY_LEFTBRACE => 26,
            Keycode::KEY_RIGHTBRACE => 27,
            Keycode::KEY_ENTER => 28,
            Keycode::KEY_LEFTCTRL => 29,
            Keycode::KEY_A => 30,
            Keycode::KEY_S => 31,
            Keycode::KEY_D => 32,
            Keycode::KEY_F => 33,
            Keycode::KEY_G => 34,
            Keycode::KEY_H => 35,
            Keycode::KEY_J => 36,
            Keycode::KEY_K => 37,
            Keycode::KEY_L => 38,
            Keycode::KEY_SEMICOLON => 39,
            Keycode::KEY_APOSTROPHE => 40,
            Keycode::KEY_GRAVE => 41,
            Keycode::KEY_LEFTSHIFT => 42,
            Keycode::KEY_BACKSLASH => 43,
            Keycode::KEY_Z => 44,
            Keycode::KEY_X => 45,
            Keycode::KEY_C => 46,
            Keycode::KEY_V => 47,
            Keycode::KEY_B => 48,
            Keycode::KEY_N => 49,
            Keycode::KEY_M => 50,
            Keycode::KEY_COMMA => 51,
            Keycode::KEY_DOT => 52,
            Keycode::KEY_SLASH => 53,
            Keycode::KEY_RIGHTSHIFT => 54,
            Keycode::KEY_KPASTERISK => 55,
            Keycode::KEY_LEFTALT => 56,
            Keycode::KEY_SPACE => 57,
            Keycode::KEY_CAPSLOCK => 58,
            Keycode::KEY_F1 => 59,
            Keycode::KEY_F2 => 60,
            Keycode::KEY_F3 => 61,
            Keycode::KEY_F4 => 62,
            Keycode::KEY_F5 => 63,
            Keycode::KEY_F6 => 64,
            Keycode::KEY_F7 => 65,
            Keycode::KEY_F8 => 66,
            Keycode::KEY_F9 => 67,
            Keycode::KEY_F10 => 68,
            Keycode::KEY_NUMLOCK => 69,
            Keycode::KEY_SCROLLLOCK => 70,
            Keycode::KEY_KP7 => 71,
            Keycode::KEY_KP8 => 72,
            Keycode::KEY_KP9 => 73,
            Keycode::KEY_KPMINUS => 74,
            Keycode::KEY_KP4 => 75,
            Keycode::KEY_KP5 => 76,
            Keycode::KEY_KP6 => 77,
            Keycode::KEY_KPPLUS => 78,
            Keycode::KEY_KP1 => 79,
            Keycode::KEY_KP2 => 80,
            Keycode::KEY_KP3 => 81,
            Keycode::KEY_KP0 => 82,
            Keycode::KEY_KPDOT => 83,
            Keycode::KEY_ZENKAKUHANKAKU => 85,
            Keycode::KEY_102ND => 86,
            Keycode::KEY_F11 => 87,
            Keycode::KEY_F12 => 88,
            Keycode::KEY_RO => 89,
            Keycode::KEY_KATAKANA => 90,
            Keycode::KEY_HIRAGANA => 91,
            Keycode::KEY_HENKAN => 92,
            Keycode::KEY_KATAKANAHIRAGANA => 93,
            Keycode::KEY_MUHENKAN => 94,
            Keycode::KEY_KPJPCOMMA => 95,
            Keycode::KEY_KPENTER => 96,
            Keycode::KEY_RIGHTCTRL => 97,
            Keycode::KEY_KPSLASH => 98,
            Keycode::KEY_SYSRQ => 99,
            Keycode::KEY_RIGHTALT => 100,
            Keycode::KEY_LINEFEED => 101,
            Keycode::KEY_HOME => 102,
            Keycode::KEY_UP => 103,
            Keycode::KEY_PAGEUP => 104,
            Keycode::KEY_LEFT => 105,
            Keycode::KEY_RIGHT => 106,
            Keycode::KEY_END => 107,
            Keycode::KEY_DOWN => 108,
            Keycode::KEY_PAGEDOWN => 109,
            Keycode::KEY_INSERT => 110,
            Keycode::KEY_DELETE => 111,
            Keycode::KEY_MACRO => 112,
            Keycode::KEY_MUTE => 113,
            Keycode::KEY_VOLUMEDOWN => 114,
            Keycode::KEY_VOLUMEUP => 115,
            Keycode::KEY_POWER => 116,
            Keycode::KEY_KPEQUAL => 117,
            Keycode::KEY_KPPLUSMINUS => 118,
            Keycode::KEY_PAUSE => 119,
            Keycode::KEY_SCALE => 120,
            Keycode::KEY_KPCOMMA => 121,
            Keycode::KEY_HANGEUL => 122,
            Keycode::KEY_HANJA => 123,
            Keycode::KEY_YEN => 124,
            Keycode::KEY_LEFTMETA => 125,
            Keycode::KEY_RIGHTMETA => 126,
            Keycode::KEY_COMPOSE => 127,
            Keycode::KEY_STOP => 128,
            Keycode::KEY_AGAIN => 129,
            Keycode::KEY_PROPS => 130,
            Keycode::KEY_UNDO => 131,
            Keycode::KEY_FRONT => 132,
            Keycode::KEY_COPY => 133,
            Keycode::KEY_OPEN => 134,
            Keycode::KEY_PASTE => 135,
            Keycode::KEY_FIND => 136,
            Keycode::KEY_CUT => 137,
            Keycode::KEY_HELP => 138,
            Keycode::KEY_MENU => 139,
            Keycode::KEY_CALC => 140,
            Keycode::KEY_SETUP => 141,
            Keycode::KEY_SLEEP => 142,
            Keycode::KEY_WAKEUP => 143,
            Keycode::KEY_FILE => 144,
            Keycode::KEY_SENDFILE => 145,
            Keycode::KEY_DELETEFILE => 146,
            Keycode::KEY_XFER => 147,
            Keycode::KEY_PROG1 => 148,
            Keycode::KEY_PROG2 => 149,
            Keycode::KEY_WWW => 150,
            Keycode::KEY_MSDOS => 151,
            Keycode::KEY_COFFEE => 152,
            Keycode::KEY_ROTATE_DISPLAY => 153,
            Keycode::KEY_CYCLEWINDOWS => 154,
            Keycode::KEY_MAIL => 155,
            Keycode::KEY_BOOKMARKS => 156,
            Keycode::KEY_COMPUTER => 157,
            Keycode::KEY_BACK => 158,
            Keycode::KEY_FORWARD => 159,
            Keycode::KEY_CLOSECD => 160,
            Keycode::KEY_EJECTCD => 161,
            Keycode::KEY_EJECTCLOSECD => 162,
            Keycode::KEY_NEXTSONG => 163,
            Keycode::KEY_PLAYPAUSE => 164,
            Keycode::KEY_PREVIOUSSONG => 165,
            Keycode::KEY_STOPCD => 166,
            Keycode::KEY_RECORD => 167,
            Keycode::KEY_REWIND => 168,
            Keycode::KEY_PHONE => 169,
            Keycode::KEY_ISO => 170,
            Keycode::KEY_CONFIG => 171,
            Keycode::KEY_HOMEPAGE => 172,
            Keycode::KEY_REFRESH => 173,
            Keycode::KEY_EXIT => 174,
            Keycode::KEY_MOVE => 175,
            Keycode::KEY_EDIT => 176,
            Keycode::KEY_SCROLLUP => 177,
            Keycode::KEY_SCROLLDOWN => 178,
            Keycode::KEY_KPLEFTPAREN => 179,
            Keycode::KEY_KPRIGHTPAREN => 180,
            Keycode::KEY_NEW => 181,
            Keycode::KEY_REDO => 182,
            Keycode::KEY_F13 => 183,
            Keycode::KEY_F14 => 184,
            Keycode::KEY_F15 => 185,
            Keycode::KEY_F16 => 186,
            Keycode::KEY_F17 => 187,
            Keycode::KEY_F18 => 188,
            Keycode::KEY_F19 => 189,
            Keycode::KEY_F20 => 190,
            Keycode::KEY_F21 => 191,
            Keycode::KEY_F22 => 192,
            Keycode::KEY_F23 => 193,
            Keycode::KEY_F24 => 194,
            Keycode::KEY_PLAYCD => 200,
            Keycode::KEY_PAUSECD => 201,
            Keycode::KEY_PROG3 => 202,
            Keycode::KEY_PROG4 => 203,
            Keycode::KEY_ALL_APPLICATIONS => 204,
            Keycode::KEY_SUSPEND => 205,
            Keycode::KEY_CLOSE => 206,
            Keycode::KEY_PLAY => 207,
            Keycode::KEY_FASTFORWARD => 208,
            Keycode::KEY_BASSBOOST => 209,
            Keycode::KEY_PRINT => 210,
            Keycode::KEY_HP => 211,
            Keycode::KEY_CAMERA => 212,
            Keycode::KEY_SOUND => 213,
            Keycode::KEY_QUESTION => 214,
            Keycode::KEY_EMAIL => 215,
            Keycode::KEY_CHAT => 216,
            Keycode::KEY_SEARCH => 217,
            Keycode::KEY_CONNECT => 218,
            Keycode::KEY_FINANCE => 219,
            Keycode::KEY_SPORT => 220,
            Keycode::KEY_SHOP => 221,
            Keycode::KEY_ALTERASE => 222,
            Keycode::KEY_CANCEL => 223,
            Keycode::KEY_BRIGHTNESSDOWN => 224,
            Keycode::KEY_BRIGHTNESSUP => 225,
            Keycode::KEY_MEDIA => 226,
            Keycode::KEY_SWITCHVIDEOMODE => 227,
            Keycode::KEY_KBDILLUMTOGGLE => 228,
            Keycode::KEY_KBDILLUMDOWN => 229,
            Keycode::KEY_KBDILLUMUP => 230,
            Keycode::KEY_SEND => 231,
            Keycode::KEY_REPLY => 232,
            Keycode::KEY_FORWARDMAIL => 233,
            Keycode::KEY_SAVE => 234,
            Keycode::KEY_DOCUMENTS => 235,
            Keycode::KEY_BATTERY => 236,
            Keycode::KEY_BLUETOOTH => 237,
            Keycode::KEY_WLAN => 238,
            Keycode::KEY_UWB => 239,
            Keycode::KEY_UNKNOWN => 240,
            Keycode::KEY_VIDEO_NEXT => 241,
            Keycode::KEY_VIDEO_PREV => 242,
            Keycode::KEY_BRIGHTNESS_CYCLE => 243,
            Keycode::KEY_BRIGHTNESS_AUTO => 244,
            Keycode::KEY_DISPLAY_OFF => 245,
            Keycode::KEY_WWAN => 246,
            Keycode::KEY_RFKILL => 247,
            Keycode::KEY_MICMUTE => 248,
            Keycode::KEY_OK => 352,
            Keycode::KEY_SELECT => 353,
            Keycode::KEY_GOTO => 354,
            Keycode::KEY_CLEAR => 355,
            Keycode::KEY_POWER2 => 356,
            Keycode::KEY_OPTION => 357,
            Keycode::KEY_INFO => 358,
            Keycode::KEY_TIME => 359,
            Keycode::KEY_VENDOR => 360,
            Keycode::KEY_ARCHIVE => 361,
            Keycode::KEY_PROGRAM => 362,
            Keycode::KEY_CHANNEL => 363,
            Keycode::KEY_FAVORITES => 364,
            Keycode::KEY_EPG => 365,
            Keycode::KEY_PVR => 366,
            Keycode::KEY_MHP => 367,
            Keycode::KEY_LANGUAGE => 368,
            Keycode::KEY_TITLE => 369,
            Keycode::KEY_SUBTITLE => 370,
            Keycode::KEY_ANGLE => 371,
            Keycode::KEY_FULL_SCREEN => 372,
            Keycode::KEY_MODE => 373,
            Keycode::KEY_KEYBOARD => 374,
            Keycode::KEY_ASPECT_RATIO => 375,
            Keycode::KEY_PC => 376,
            Keycode::KEY_TV => 377,
            Keycode::KEY_TV2 => 378,
            Keycode::KEY_VCR => 379,
            Keycode::KEY_VCR2 => 380,
            Keycode::KEY_SAT => 381,
            Keycode::KEY_SAT2 => 382,
            Keycode::KEY_CD => 383,
            Keycode::KEY_TAPE => 384,
            Keycode::KEY_RADIO => 385,
            Keycode::KEY_TUNER => 386,
            Keycode::KEY_PLAYER => 387,
            Keycode::KEY_TEXT => 388,
            Keycode::KEY_DVD => 389,
            Keycode::KEY_AUX => 390,
            Keycode::KEY_MP3 => 391,
            Keycode::KEY_AUDIO => 392,
            Keycode::KEY_VIDEO => 393,
            Keycode::KEY_DIRECTORY => 394,
            Keycode::KEY_LIST => 395,
            Keycode::KEY_MEMO => 396,
            Keycode::KEY_CALENDAR => 397,
            Keycode::KEY_RED => 398,
            Keycode::KEY_GREEN => 399,
            Keycode::KEY_YELLOW => 400,
            Keycode::KEY_BLUE => 401,
            Keycode::KEY_CHANNELUP => 402,
            Keycode::KEY_CHANNELDOWN => 403,
            Keycode::KEY_FIRST => 404,
            Keycode::KEY_LAST => 405,
            Keycode::KEY_AB => 406,
            Keycode::KEY_NEXT => 407,
            Keycode::KEY_RESTART => 408,
            Keycode::KEY_SLOW => 409,
            Keycode::KEY_SHUFFLE => 410,
            Keycode::KEY_BREAK => 411,
            Keycode::KEY_PREVIOUS => 412,
            Keycode::KEY_DIGITS => 413,
            Keycode::KEY_TEEN => 414,
            Keycode::KEY_TWEN => 415,
            Keycode::KEY_VIDEOPHONE => 416,
            Keycode::KEY_GAMES => 417,
            Keycode::KEY_ZOOMIN => 418,
            Keycode::KEY_ZOOMOUT => 419,
            Keycode::KEY_ZOOMRESET => 420,
            Keycode::KEY_WORDPROCESSOR => 421,
            Keycode::KEY_EDITOR => 422,
            Keycode::KEY_SPREADSHEET => 423,
            Keycode::KEY_GRAPHICSEDITOR => 424,
            Keycode::KEY_PRESENTATION => 425,
            Keycode::KEY_DATABASE => 426,
            Keycode::KEY_NEWS => 427,
            Keycode::KEY_VOICEMAIL => 428,
            Keycode::KEY_ADDRESSBOOK => 429,
            Keycode::KEY_MESSENGER => 430,
            Keycode::KEY_DISPLAYTOGGLE => 431,
            Keycode::KEY_SPELLCHECK => 432,
            Keycode::KEY_LOGOFF => 433,
            Keycode::KEY_DOLLAR => 434,
            Keycode::KEY_EURO => 435,
            Keycode::KEY_FRAMEBACK => 436,
            Keycode::KEY_FRAMEFORWARD => 437,
            Keycode::KEY_CONTEXT_MENU => 438,
            Keycode::KEY_MEDIA_REPEAT => 439,
            Keycode::KEY_10CHANNELSUP => 440,
            Keycode::KEY_10CHANNELSDOWN => 441,
            Keycode::KEY_IMAGES => 442,
            Keycode::KEY_NOTIFICATION_CENTER => 444,
            Keycode::KEY_PICKUP_PHONE => 445,
            Keycode::KEY_HANGUP_PHONE => 446,
            Keycode::KEY_LINK_PHONE => 447,
            Keycode::KEY_DEL_EOL => 448,
            Keycode::KEY_DEL_EOS => 449,
            Keycode::KEY_INS_LINE => 450,
            Keycode::KEY_DEL_LINE => 451,
            Keycode::KEY_FN => 464,
            Keycode::KEY_FN_ESC => 465,
            Keycode::KEY_FN_F1 => 466,
            Keycode::KEY_FN_F2 => 467,
            Keycode::KEY_FN_F3 => 468,
            Keycode::KEY_FN_F4 => 469,
            Keycode::KEY_FN_F5 => 470,
            Keycode::KEY_FN_F6 => 471,
            Keycode::KEY_FN_F7 => 472,
            Keycode::KEY_FN_F8 => 473,
            Keycode::KEY_FN_F9 => 474,
            Keycode::KEY_FN_F10 => 475,
            Keycode::KEY_FN_F11 => 476,
            Keycode::KEY_FN_F12 => 477,
            Keycode::KEY_FN_1 => 478,
            Keycode::KEY_FN_2 => 479,
            Keycode::KEY_FN_D => 480,
            Keycode::KEY_FN_E => 481,
            Keycode::KEY_FN_F => 482,
            Keycode::KEY_FN_S => 483,
            Keycode::KEY_FN_B => 484,
            Keycode::KEY_FN_RIGHT_SHIFT => 485,
            Keycode::KEY_BRL_DOT1 => 497,
            Keycode::KEY_BRL_DOT2 => 498,
            Keycode::KEY_BRL_DOT3 => 499,
            Keycode::KEY_BRL_DOT4 => 500,
            Keycode::KEY_BRL_DOT5 => 501,
            Keycode::KEY_BRL_DOT6 => 502,
            Keycode::KEY_BRL_DOT7 => 503,
            Keycode::KEY_BRL_DOT8 => 504,
            Keycode::KEY_BRL_DOT9 => 505,
            Keycode::KEY_BRL_DOT10 => 506,
            Keycode::KEY_NUMERIC_0 => 512,
            Keycode::KEY_NUMERIC_1 => 513,
            Keycode::KEY_NUMERIC_2 => 514,
            Keycode::KEY_NUMERIC_3 => 515,
            Keycode::KEY_NUMERIC_4 => 516,
            Keycode::KEY_NUMERIC_5 => 517,
            Keycode::KEY_NUMERIC_6 => 518,
            Keycode::KEY_NUMERIC_7 => 519,
            Keycode::KEY_NUMERIC_8 => 520,
            Keycode::KEY_NUMERIC_9 => 521,
            Keycode::KEY_NUMERIC_STAR => 522,
            Keycode::KEY_NUMERIC_POUND => 523,
            Keycode::KEY_NUMERIC_A => 524,
            Keycode::KEY_NUMERIC_B => 525,
            Keycode::KEY_NUMERIC_C => 526,
            Keycode::KEY_NUMERIC_D => 527,
            Keycode::KEY_CAMERA_FOCUS => 528,
            Keycode::KEY_WPS_BUTTON => 529,
            Keycode::KEY_TOUCHPAD_TOGGLE => 530,
            Keycode::KEY_TOUCHPAD_ON => 531,
            Keycode::KEY_TOUCHPAD_OFF => 532,
            Keycode::KEY_CAMERA_ZOOMIN => 533,
            Keycode::KEY_CAMERA_ZOOMOUT => 534,
            Keycode::KEY_CAMERA_UP => 535,
            Keycode::KEY_CAMERA_DOWN => 536,
            Keycode::KEY_CAMERA_LEFT => 537,
            Keycode::KEY_CAMERA_RIGHT => 538,
            Keycode::KEY_ATTENDANT_ON => 539,
            Keycode::KEY_ATTENDANT_OFF => 540,
            Keycode::KEY_ATTENDANT_TOGGLE => 541,
            Keycode::KEY_LIGHTS_TOGGLE => 542,
            Keycode::KEY_ALS_TOGGLE => 560,
            Keycode::KEY_ROTATE_LOCK_TOGGLE => 561,
            Keycode::KEY_REFRESH_RATE_TOGGLE => 562,
            Keycode::KEY_BUTTONCONFIG => 576,
            Keycode::KEY_TASKMANAGER => 577,
            Keycode::KEY_JOURNAL => 578,
            Keycode::KEY_CONTROLPANEL => 579,
            Keycode::KEY_APPSELECT => 580,
            Keycode::KEY_SCREENSAVER => 581,
            Keycode::KEY_VOICECOMMAND => 582,
            Keycode::KEY_ASSISTANT => 583,
            Keycode::KEY_KBD_LAYOUT_NEXT => 584,
            Keycode::KEY_EMOJI_PICKER => 585,
            Keycode::KEY_DICTATE => 586,
            Keycode::KEY_BRIGHTNESS_MIN => 592,
            Keycode::KEY_BRIGHTNESS_MAX => 593,
            Keycode::KEY_KBDINPUTASSIST_PREV => 608,
            Keycode::KEY_KBDINPUTASSIST_NEXT => 609,
            Keycode::KEY_KBDINPUTASSIST_PREVGROUP => 610,
            Keycode::KEY_KBDINPUTASSIST_NEXTGROUP => 611,
            Keycode::KEY_KBDINPUTASSIST_ACCEPT => 612,
            Keycode::KEY_KBDINPUTASSIST_CANCEL => 613,
            Keycode::KEY_RIGHT_UP => 614,
            Keycode::KEY_RIGHT_DOWN => 615,
            Keycode::KEY_LEFT_UP => 616,
            Keycode::KEY_LEFT_DOWN => 617,
            Keycode::KEY_ROOT_MENU => 618,
            Keycode::KEY_MEDIA_TOP_MENU => 619,
            Keycode::KEY_NUMERIC_11 => 620,
            Keycode::KEY_NUMERIC_12 => 621,
            Keycode::KEY_AUDIO_DESC => 622,
            Keycode::KEY_3D_MODE => 623,
            Keycode::KEY_NEXT_FAVORITE => 624,
            Keycode::KEY_STOP_RECORD => 625,
            Keycode::KEY_PAUSE_RECORD => 626,
            Keycode::KEY_VOD => 627,
            Keycode::KEY_UNMUTE => 628,
            Keycode::KEY_FASTREVERSE => 629,
            Keycode::KEY_SLOWREVERSE => 630,
            Keycode::KEY_DATA => 631,
            Keycode::KEY_ONSCREEN_KEYBOARD => 632,
            Keycode::KEY_PRIVACY_SCREEN_TOGGLE => 633,
            Keycode::KEY_SELECTIVE_SCREENSHOT => 634,
            Keycode::KEY_NEXT_ELEMENT => 635,
            Keycode::KEY_PREVIOUS_ELEMENT => 636,
            Keycode::KEY_AUTOPILOT_ENGAGE_TOGGLE => 637,
            Keycode::KEY_MARK_WAYPOINT => 638,
            Keycode::KEY_SOS => 639,
            Keycode::KEY_NAV_CHART => 640,
            Keycode::KEY_FISHING_CHART => 641,
            Keycode::KEY_SINGLE_RANGE_RADAR => 642,
            Keycode::KEY_DUAL_RANGE_RADAR => 643,
            Keycode::KEY_RADAR_OVERLAY => 644,
            Keycode::KEY_TRADITIONAL_SONAR => 645,
            Keycode::KEY_CLEARVU_SONAR => 646,
            Keycode::KEY_SIDEVU_SONAR => 647,
            Keycode::KEY_NAV_INFO => 648,
            Keycode::KEY_BRIGHTNESS_MENU => 649,
            Keycode::KEY_MACRO1 => 656,
            Keycode::KEY_MACRO2 => 657,
            Keycode::KEY_MACRO3 => 658,
            Keycode::KEY_MACRO4 => 659,
            Keycode::KEY_MACRO5 => 660,
            Keycode::KEY_MACRO6 => 661,
            Keycode::KEY_MACRO7 => 662,
            Keycode::KEY_MACRO8 => 663,
            Keycode::KEY_MACRO9 => 664,
            Keycode::KEY_MACRO10 => 665,
            Keycode::KEY_MACRO11 => 666,
            Keycode::KEY_MACRO12 => 667,
            Keycode::KEY_MACRO13 => 668,
            Keycode::KEY_MACRO14 => 669,
            Keycode::KEY_MACRO15 => 670,
            Keycode::KEY_MACRO16 => 671,
            Keycode::KEY_MACRO17 => 672,
            Keycode::KEY_MACRO18 => 673,
            Keycode::KEY_MACRO19 => 674,
            Keycode::KEY_MACRO20 => 675,
            Keycode::KEY_MACRO21 => 676,
            Keycode::KEY_MACRO22 => 677,
            Keycode::KEY_MACRO23 => 678,
            Keycode::KEY_MACRO24 => 679,
            Keycode::KEY_MACRO25 => 680,
            Keycode::KEY_MACRO26 => 681,
            Keycode::KEY_MACRO27 => 682,
            Keycode::KEY_MACRO28 => 683,
            Keycode::KEY_MACRO29 => 684,
            Keycode::KEY_MACRO30 => 685,
            Keycode::KEY_MACRO_RECORD_START => 688,
            Keycode::KEY_MACRO_RECORD_STOP => 689,
            Keycode::KEY_MACRO_PRESET_CYCLE => 690,
            Keycode::KEY_MACRO_PRESET1 => 691,
            Keycode::KEY_MACRO_PRESET2 => 692,
            Keycode::KEY_MACRO_PRESET3 => 693,
            Keycode::KEY_KBD_LCD_MENU1 => 696,
            Keycode::KEY_KBD_LCD_MENU2 => 697,
            Keycode::KEY_KBD_LCD_MENU3 => 698,
            Keycode::KEY_KBD_LCD_MENU4 => 699,
            Keycode::KEY_KBD_LCD_MENU5 => 700,
            Keycode::KEY_MAX => 767,
            Keycode::KEY_CNT => 768,
        }
    }

    /// The key code with the given numeric value, if there is one.
    pub open spec fn spec_from_code(value: u16) -> Option<Keycode> {
        if value < 362 {
            if value < 127 {
                if value < 63 {
                    if value < 31 {
                        if value < 15 {
                            if value < 7 {
                                if value < 3 {
                                    if value < 1 {
                                        if value == 0 {
                                            Some(Keycode::KEY_RESERVED)
                                        } else {
                                            None
                                        }
                                    } else {
                                        if value < 2 {
                                            if value == 1 {
                                                Some(Keycode::KEY_ESC)
                                            } else {
                                                None
                                            }
                                        } else {
                                            if value == 2 {
                                                Some(Keycode::KEY_1)
                                            } else {
                                                None
                                            }
                                        }
                                    }
                                } else {
                                    if value < 5 {
                                        if value < 4 {
                                            if value == 3 {
                                                Some(Keycode::KEY_2)
                                            } else {
                                                None
                                            }
                                        } else {
                                            if value == 4 {
                                                Some(Keycode::KEY_3)
                                            } else {
                                                None
                                            }
                                        }
                                    } else {
                                        if value < 6 {
                                            if value == 5 {
                                                Some(Keycode::KEY_4)
                                            } else {
                                                None
                                            }
                                        } else {
                                            if value == 6 {
                                                Some(Keycode::KEY_5)
                                            } else {
                                                None
                                            }
                                        }
                                    }
                                }
                            } else {
                                if value < 11 {
                                    if value < 9 {
                                        if value < 8 {
                                            if value == 7 {
                                                Some(Keycode::KEY_6)
                                            } else {
                                                None
                                            }
                                        } else {
                                            if value == 8 {
                                                Some(Keycode::KEY_7)
                                            } else {
                                                None
                                            }
                                        }
                                    } else {
                                        if value < 10 {
                                            if value == 9 {
                                                Some(Keycode::KEY_8)
                                            } else {
                                                None
                                            }
                                        } else {
                                            if value == 10 {
                                                Some(Keycode::KEY_9)
                                            } else {
                                                None
                                            }
                                        }
                                    }
                                } else {
                                    if value < 13 {
                                        if value < 12 {
                                            if value == 11 {
                                                Some(Keycode::KEY_0)
                                            } else {
                                                None
                                            }
                                        } else {
                                            if value == 12 {
                                                Some(Keycode::KEY_MINUS)
                                            } else {
                                                None
                                            }
                                        }
                                    } else {
                                        if value < 14 {
                                            if value == 13 {
                                                Some(Keycode::KEY_EQUAL)
                                            } else {
                                                None
                                            }
                                        } else {
                                            if value == 14 {
                                                Some(Keycode::KEY_BACKSPACE)
                                            } else {
                                                None
                                            }
                                        }
                                    }
                                }
                            }
                        } else {
                            if value < 23 {
                                if value < 19 {
                                    if value < 17 {
                                        if value < 16 {
                                            if value == 15 {
                                                Some(Keycode::KEY_TAB)
                                            } else {
                                                None
                                            }
                                        } else {
                                            if value == 16 {
                                                Some(Keycode::KEY_Q)
                                            } else {
                                                None
                                            }
                                        }
                                    } else {
                                        if value < 18 {
                                            if value == 17 {
                                                Some(Keycode::KEY_W)
                                            } else {
                                                None
                                            }
                                        } else {
                                            if value == 18 {
                                                Some(Keycode::KEY_E)
                                            } else {
                                                None
                                            }
                                        }
                                    }
                                } else {
                                    if value < 21 {
                                        if value < 20 {
                                            if value == 19 {
                                                Some(Keycode::KEY_R)
                                            } else {
                                                None
                                            }
                                        } else {
                                            if value == 20 {
                                                Some(Keycode::KEY_T)
                                            } else {
                                                None
                                            }
                                        }
                                    } else {
                                        if value < 22 {
                                            if value == 21 {
                                                Some(Keycode::KEY_Y)
                                            } else {
                                                None
                                            }
                                        } else {
                                            if value == 22 {
                                                Some(Keycode::KEY_U)
                                            } else {
                                                None
                                            }
                                        }
                                    }
                                }
                            } else {
                                if value < 27 {
                                    if value < 25 {
                                        if value < 24 {
                                            if value == 23 {
                                                Some(Keycode::KEY_I)
                                            } else {
                                                None
                                            }
                                        } else {
                                            if value == 24 {
                                                Some(Keycode::KEY_O)
                                            } else {
                                                None
                                            }
                                        }
                                    } else {
                                        if value < 26 {
                                            if value == 25 {
                                                Some(Keycode::KEY_P)
                                            } else {
                                                None
                                            }
                                        } else {
                                            if value == 26 {
                                                Some(Keycode::KEY_LEFTBRACE)
                                            } else {
                                                None
                                            }
                                        }
                                    }
                                } else {
                                    if value < 29 {
                                        if value < 28 {
                                            if value == 27 {
                                                Some(Keycode::KEY_RIGHTBRACE)
                                            } else {
                                                None
                                            }
                                        } else {
                                            if value == 28 {
                                                Some(Keycode::KEY_ENTER)
                                            } else {
                                                None
                                            }
                                        }
                                    } else {
                                        if value < 30 {
                                            if value == 29 {
                                                Some(Keycode::KEY_LEFTCTRL)
                                            } else {
                                                None
                                            }
                                        } else {
                                            if value == 30 {
                                                Some(Keycode::KEY_A)
                                            } else {
                                                None
                                            }
                                        }
                                    }
                                }
                            }
                        }
                    } else {
                        if value < 47 {
                            if value < 39 {
                                if value < 35 {
                                    if value < 33 {
                                        if value < 32 {
                                            if value == 31 {
                                                Some(Keycode::KEY_S)
                                            } else {
                                                None
                                            }
                                        } else {
                                            if value == 32 {
                                                Some(Keycode::KEY_D)
                                            } else {
                                                None
                                            }
                                        }
                                    } else {
                                        if value < 34 {
                                            if value == 33 {
                                                Some(Keycode::KEY_F)
                                            } else {
                                                None
                                            }
                                        } else {
                                            if value == 34 {
                                                Some(Keycode::KEY_G)
                                            } else {
                                                None
                                            }
                                        }
                                    }
                                } else {
                                    if value < 37 {
                                        if value < 36 {
                                            if value == 35 {
                                                Some(Keycode::KEY_H)
                                            } else {
                                                None
                                            }
                                        } else {
                                            if value == 36 {
                                                Some(Keycode::KEY_J)
                                            } else {
                                                None
                                            }
                                        }
                                    } else {
                                        if value < 38 {
                                            if value == 37 {
                                                Some(Keycode::KEY_K)
                                            } else {
                                                None
                                            }
                                        } else {
                                            if value == 38 {
                                                Some(Keycode::KEY_L)
                                            } else {
                                                None
                                            }
                                        }
                                    }
                                }
                            } else {
                                if value < 43 {
                                    if value < 41 {
                                        if value < 40 {
                                            if value == 39 {
                                                Some(Keycode::KEY_SEMICOLON)
                                            } else {
                                                None
                                            }
                                        } else {
                                            if value == 40 {
                                                Some(Keycode::KEY_APOSTROPHE)
                                            } else {
                                                None
                                            }
                                        }
                                    } else {
                                        if value < 42 {
                                            if value == 41 {
                                                Some(Keycode::KEY_GRAVE)
                                            } else {
                                                None
                                            }
                                        } else {
                                            if value == 42 {
                                                Some(Keycode::KEY_LEFTSHIFT)
                                            } else {
                                                None
                                            }
                                        }
                                    }
                                } else {
                                    if value < 45 {
                                        if value < 44 {
                                            if value == 43 {
                                                Some(Keycode::KEY_BACKSLASH)
                                            } else {
                                                None
                                            }
                                        } else {
                                            if value == 44 {
                                                Some(Keycode::KEY_Z)
                                            } else {
                                                None
                                            }
                                        }
                                    } else {
                                        if value < 46 {
                                            if value == 45 {
                                                Some(Keycode::KEY_X)
                                            } else {
                                                None
                                            }
                                        } else {
                                            if value == 46 {
                                                Some(Keycode::KEY_C)
                                            } else {
                                                None
                                            }
                                        }
                                    }
                                }
                            }
                        } else {
                            if value < 55 {
                                if value < 51 {
                                    if value < 49 {
                                        if value < 48 {
                                            if value == 47 {
                                                Some(Keycode::KEY_V)
                                            } else {
                                                None
                                            }
                                        } else {
                                            if value == 48 {
                                                Some(Keycode::KEY_B)
                                            } else {
                                                None
                                            }
                                        }
                                    } else {
                                        if value < 50 {
                                            if value == 49 {
                                                Some(Keycode::KEY_N)
                                            } else {
                                                None
                                            }
                                        } else {
                                            if value == 50 {
                                                Some(Keycode::KEY_M)
                                            } else {
                                                None
                                            }
                                        }
                                    }
                                } else {
                                    if value < 53 {
                                        if value < 52 {
                                            if value == 51 {
                                                Some(Keycode::KEY_COMMA)
                                            } else {
                                                None
                                            }
                                        } else {
                                            if value == 52 {
                                                Some(Keycode::KEY_DOT)
                                            } else {
                                                None
                                            }
                                        }
                                    } else {
                                        if value < 54 {
                                            if value == 53 {
                                                Some(Keycode::KEY_SLASH)
                                            } else {
                                                None
                                            }
                                        } else {
                                            if value == 54 {
                                                Some(Keycode::KEY_RIGHTSHIFT)
                                            } else {
                                                None
                                            }
                                        }
                                    }
                                }
                            } else {
                                if value < 59 {
                                    if value < 57 {
                                        if value < 56 {
                                            if value == 55 {
                                                Some(Keycode::KEY_KPASTERISK)
                                            } else {
                                                None
                                            }
                                        } else {
                                            if value == 56 {
                                                Some(Keycode::KEY_LEFTALT)
                                            } else {
                                                None
                                            }
                                        }
                                    } else {
                                        if value < 58 {
                                            if value == 57 {
                                                Some(Keycode::KEY_SPACE)
                                            } else {
                                                None
                                            }
                                        } else {
                                            if value == 58 {
                                                Some(Keycode::KEY_CAPSLOCK)
                                            } else {
                                                None
                                            }
                                        }
                                    }
                                } else {
                                    if value < 61 {
                                        if value < 60 {
                                            if value == 59 {
                                                Some(Keycode::KEY_F1)
                                            } else {
                                                None
                                            }
                                        } else {
                                            if value == 60 {
                                                Some(Keycode::KEY_F2)
                                            } else {
                                                None
                                            }
                                        }
                                    } else {
                                        if value < 62 {
                                            if value == 61 {
                                                Some(Keycode::KEY_F3)
                                            } else {
                                                None
                                            }
                                        } else {
                                            if value == 62 {
                                                Some(Keycode::KEY_F4)
                                            } else {
                                                None
                                            }
                                        }
                                    }
                                }
                            }
                        }
                    }
                } else {
                    if value < 95 {
                        if value < 78 {
                            if value < 70 {
                                if value < 66 {
                                    if value < 64 {
                                        if value == 63 {
                                            Some(Keycode::KEY_F5)
                                        } else {
                                            None
                                        }
                                    } else {
                                        if value < 65 {
                                            if value == 64 {
                                                Some(Keycode::KEY_F6)
                                            } else {
                                                None
                                            }
                                        } else {
                                            if value == 65 {
                                                Some(Keycode::KEY_F7)
                                            } else {
                                                None
                                            }
                                        }
                                    }
                                } else {
                                    if value < 68 {
                                        if value < 67 {
                                            if value == 66 {
                                                Some(Keycode::KEY_F8)
                                            } else {
                                                None
                                            }
                                        } else {
                                            if value == 67 {
                                                Some(Keycode::KEY_F9)
                                            } else {
                                                None
                                            }
                                        }
                                    } else {
                                        if value < 69 {
                                            if value == 68 {
                                                Some(Keycode::KEY_F10)
                                            } else {
                                                None
                                            }
                                        } else {
                                            if value == 69 {
                                                Some(Keycode::KEY_NUMLOCK)
                                            } else {
                                                None
                                            }
                                        }
                                    }
                                }
                            } else {
                                if value < 74 {
                                    if value < 72 {
                                        if value < 71 {
                                            if value == 70 {
                                                Some(Keycode::KEY_SCROLLLOCK)
                                            } else {
                                                None
                                            }
                                        } else {
                                            if value == 71 {
                                                Some(Keycode::KEY_KP7)
                                            } else {
                                                None
                                            }
                                        }
                                    } else {
                                        if value < 73 {
                                            if value == 72 {
                                                Some(Keycode::KEY_KP8)
                                            } else {
                                                None
                                            }
                                        } else {
                                            if value == 73 {
                                                Some(Keycode::KEY_KP9)
                                            } else {
                                                None
                                            }
                                        }
                                    }
                                } else {
                                    if value < 76 {
                                        if value < 75 {
                                            if value == 74 {
                                                Some(Keycode::KEY_KPMINUS)
                                            } else {
                                                None
                                            }
                                        } else {
                                            if value == 75 {
                                                Some(Keycode::KEY_KP4)
                                            } else {
                                                None
                                            }
                                        }
                                    } else {
                                        if value < 77 {
                                            if value == 76 {
                                                Some(Keycode::KEY_KP5)
                                            } else {
                                                None
                                            }
                                        } else {
                                            if value == 77 {
                                                Some(Keycode::KEY_KP6)
                                            } else {
                                                None
                                            }
                                        }
                                    }
                                }
                            }
                        } else {
                            if value < 87 {
                                if value < 82 {
                                    if value < 80 {
                                        if value < 79 {
                                            if value == 78 {
                                                Some(Keycode::KEY_KPPLUS)
                                            } else {
                                                None
                                            }
                                        } else {
                                            if value == 79 {
                                                Some(Keycode::KEY_KP1)
                                            } else {
                                                None
                                            }
                                        }
                                    } else {
                                        if value < 81 {
                                            if value == 80 {
                                                Some(Keycode::KEY_KP2)
                                            } else {
                                                None
                                            }
                                        } else {
                                            if value == 81 {
                                                Some(Keycode::KEY_KP3)
                                            } else {
                                                None
                                            }
                                        }
                                    }
                                } else {
                                    if value < 85 {
                                        if value < 83 {
                                            if value == 82 {
                                                Some(Keycode::KEY_KP0)
                                            } else {
                                                None
                                            }
                                        } else {
                                            if value == 83 {
                                                Some(Keycode::KEY_KPDOT)
                                            } else {
                                                None
                                            }
                                        }
                                    } else {
                                        if value < 86 {
                                            if value == 85 {
                                                Some(Keycode::KEY_ZENKAKUHANKAKU)
                                            } else {
                                                None
                                            }
                                        } else {
                                            if value == 86 {
                                                Some(Keycode::KEY_102ND)
                                            } else {
                                                None
                                            }
                                        }
                                    }
                                }
                            } else {
                                if value < 91 {
                                    if value < 89 {
                                        if value < 88 {
                                            if value == 87 {
                                                Some(Keycode::KEY_F11)
                                            } else {
                                                None
                                            }
                                        } else {
                                            if value == 88 {
                                                Some(Keycode::KEY_F12)
                                            } else {
                                                None
                                            }
                                        }
                                    } else {
                                        if value < 90 {
                                            if value == 89 {
                                                Some(Keycode::KEY_RO)
                                            } else {
                                                None
                                            }
                                        } else {
                                            if value == 90 {
                                                Some(Keycode::KEY_KATAKANA)
                                            } else {
                                                None
                                            }
                                        }
                                    }
                                } else {
                                    if value < 93 {
                                        if value < 92 {
                                            if value == 91 {
                                                Some(Keycode::KEY_HIRAGANA)
                                            } else {
                                                None
                                            }
                                        } else {
                                            if value == 92 {
                                                Some(Keycode::KEY_HENKAN)
                                            } else {
                                                None
                                            }
                                        }
                                    } else {
                                        if value < 94 {
                                            if value == 93 {
                                                Some(Keycode::KEY_KATAKANAHIRAGANA)
                                            } else {
                                                None
                                            }
                                        } else {
                                            if value == 94 {
                                                Some(Keycode::KEY_MUHENKAN)
                                            } else {
                                                None
                                            }
                                        }
                                    }
                                }
                            }
                        }
                    } else {
                        if value < 111 {
                            if value < 103 {
                                if value < 99 {
                                    if value < 97 {
                                        if value < 96 {
                                            if value == 95 {
                                                Some(Keycode::KEY_KPJPCOMMA)
                                            } else {
                                                None
                                            }
                                        } else {
                                            if value == 96 {
                                                Some(Keycode::KEY_KPENTER)
                                            } else {
                                                None
                                            }
                                        }
                                    } else {
                                        if value < 98 {
                                            if value == 97 {
                                                Some(Keycode::KEY_RIGHTCTRL)
                                            } else {
                                                None
                                            }
                                        } else {
                                            if value == 98 {
                                                Some(Keycode::KEY_KPSLASH)
                                            } else {
                                                None
                                            }
                                        }
                                    }
                                } else {
                                    if value < 101 {
                                        if value < 100 {
                                            if value == 99 {
                                                Some(Keycode::KEY_SYSRQ)
                                            } else {
                                                None
                                            }
                                        } else {
                                            if value == 100 {
                                                Some(Keycode::KEY_RIGHTALT)
                                            } else {
                                                None
                                            }
                                        }
                                    } else {
                                        if value < 102 {
                                            if value == 101 {
                                                Some(Keycode::KEY_LINEFEED)
                                            } else {
                                                None
                                            }
                                        } else {
                                            if value == 102 {
                                                Some(Keycode::KEY_HOME)
                                            } else {
                                                None
                                            }
                                        }
                                    }
                                }
                            } else {
                                if value < 107 {
                                    if value < 105 {
                                        if value < 104 {
                                            if value == 103 {
                                                Some(Keycode::KEY_UP)
                                            } else {
                                                None
                                            }
                                        } else {
                                            if value == 104 {
                                                Some(Keycode::KEY_PAGEUP)
                                            } else {
                                                None
                                            }
                                        }
                                    } else {
                                        if value < 106 {
                                            if value == 105 {
                                                Some(Keycode::KEY_LEFT)
                                            } else {
                                                None
                                            }
                                        } else {
                                            if value == 106 {
                                                Some(Keycode::KEY_RIGHT)
                                            } else {
                                                None
                                            }
                                        }
                                    }
                                } else {
                                    if value < 109 {
                                        if value < 108 {
                                            if value == 107 {
                                                Some(Keycode::KEY_END)
                                            } else {
                                                None
                                            }
                                        } else {
                                            if value == 108 {
                                                Some(Keycode::KEY_DOWN)
                                            } else {
                                                None
                                            }
                                        }
                                    } else {
                                        if value < 110 {
                                            if value == 109 {
                                                Some(Keycode::KEY_PAGEDOWN)
                                            } else {
                                                None
                                            }
                                        } else {
                                            if value == 110 {
                                                Some(Keycode::KEY_INSERT)
                                            } else {
                                                None
                                            }
                                        }
                                    }
                                }
                            }
                        } else {
                            if value < 119 {
                                if value < 115 {
                                    if value < 113 {
                                        if value < 112 {
                                            if value == 111 {
                                                Some(Keycode::KEY_DELETE)
                                            } else {
                                                None
                                            }
                                        } else {
                                            if value == 112 {
                                                Some(Keycode::KEY_MACRO)
                                            } else {
                                                None
                                            }
                                        }
                                    } else {
                                        if value < 114 {
                                            if value == 113 {
                                                Some(Keycode::KEY_MUTE)
                                            } else {
                                                None
                                            }
                                        } else {
                                            if value == 114 {
                                                Some(Keycode::KEY_VOLUMEDOWN)
                                            } else {
                                                None
                                            }
                                        }
                                    }
                                } else {
                                    if value < 117 {
                                        if value < 116 {
                                            if value == 115 {
                                                Some(Keycode::KEY_VOLUMEUP)
                                            } else {
                                                None
                                            }
                                        } else {
                                            if value == 116 {
                                                Some(Keycode::KEY_POWER)
                                            } else {
                                                None
                                            }
                                        }
                                    } else {
                                        if value < 118 {
                                            if value == 117 {
                                                Some(Keycode::KEY_KPEQUAL)
                                            } else {
                                                None
                                            }
                                        } else {
                                            if value == 118 {
                                                Some(Keycode::KEY_KPPLUSMINUS)
                                            } else {
                                                None
                                            }
                                        }
                                    }
                                }
                            } else {
                                if value < 123 {
                                    if value < 121 {
                                        if value < 120 {
                                            if value == 119 {
                                                Some(Keycode::KEY_PAUSE)
                                            } else {
                                                None
                                            }
                                        } else {
                                            if value == 120 {
                                                Some(Keycode::KEY_SCALE)
                                            } else {
                                                None
                                            }
                                        }
                                    } else {
                                        if value < 122 {
                                            if value == 121 {
                                                Some(Keycode::KEY_KPCOMMA)
                                            } else {
                                                None
                                            }
                                        } else {
                                            if value == 122 {
                                                Some(Keycode::KEY_HANGEUL)
                                            } else {
                                                None
                                            }
                                        }
                                    }
                                } else {
                                    if value < 125 {
                                        if value < 124 {
                                            if value == 123 {
                                                Some(Keycode::KEY_HANJA)
                                            } else {
                                                None
                                            }
                                        } else {
                                            if value == 124 {
                                                Some(Keycode::KEY_YEN)
                                            } else {
                                                None
                                            }
                                        }
                                    } else {
                                        if value < 126 {
                                            if value == 125 {
                                                Some(Keycode::KEY_LEFTMETA)
                                            } else {
                                                None
                                            }
                                        } else {
                                            if value == 126 {
                                                Some(Keycode::KEY_RIGHTMETA)
                                            } else {
                                                None
                                            }
                                        }
                                    }
                                }
                            }
                        }
                    }
                }
            } else {
                if value < 190 {
                    if value < 158 {
                        if value < 142 {
                            if value < 134 {
                                if value < 130 {
                                    if value < 128 {
                                        if value == 127 {
                                            Some(Keycode::KEY_COMPOSE)
                                        } else {
                                            None
                                        }
                                    } else {
                                        if value < 129 {
                                            if value == 128 {
                                                Some(Keycode::KEY_STOP)
                                            } else {
                                                None
                                            }
                                        } else {
                                            if value == 129 {
                                                Some(Keycode::KEY_AGAIN)
                                            } else {
                                                None
                                            }
                                        }
                                    }
                                } else {
                                    if value < 132 {
                                        if value < 131 {
                                            if value == 130 {
                                                Some(Keycode::KEY_PROPS)
                                            } else {
                                                None
                                            }
                                        } else {
                                            if value == 131 {
                                                Some(Keycode::KEY_UNDO)
                                            } else {
                                                None
                                            }
                                        }
                                    } else {
                                        if value < 133 {
                                            if value == 132 {
                                                Some(Keycode::KEY_FRONT)
                                            } else {
                                                None
                                            }
                                        } else {
                                            if value == 133 {
                                                Some(Keycode::KEY_COPY)
                                            } else {
                                                None
                                            }
                                        }
                                    }
                                }
                            } else {
                                if value < 138 {
                                    if value < 136 {
                                        if value < 135 {
                                            if value == 134 {
                                                Some(Keycode::KEY_OPEN)
                                            } else {
                                                None
                                            }
                                        } else {
                                            if value == 135 {
                                                Some(Keycode::KEY_PASTE)
                                            } else {
                                                None
                                            }
                                        }
                                    } else {
                                        if value < 137 {
                                            if value == 136 {
                                                Some(Keycode::KEY_FIND)
                                            } else {
                                                None
                                            }
                                        } else {
                                            if value == 137 {
                                                Some(Keycode::KEY_CUT)
                                            } else {
                                                None
                                            }
                                        }
                                    }
                                } else {
                                    if value < 140 {
                                        if value < 139 {
                                            if value == 138 {
                                                Some(Keycode::KEY_HELP)
                                            } else {
                                                None
                                            }
                                        } else {
                                            if value == 139 {
                                                Some(Keycode::KEY_MENU)
                                            } else {
                                                None
                                            }
                                        }
                                    } else {
                                        if value < 141 {
                                            if value == 140 {
                                                Some(Keycode::KEY_CALC)
                                            } else {
                                                None
                                            }
                                        } else {
                                            if value == 141 {
                                                Some(Keycode::KEY_SETUP)
                                            } else {
                                                None
                                            }
                                        }
                                    }
                                }
                            }
                        } else {
                            if value < 150 {
                                if value < 146 {
                                    if value < 144 {
                                        if value < 143 {
                                            if value == 142 {
                                                Some(Keycode::KEY_SLEEP)
                                            } else {
                                                None
                                            }
                                        } else {
                                            if value == 143 {
                                                Some(Keycode::KEY_WAKEUP)
                                            } else {
                                                None
                                            }
                                        }
                                    } else {
                                        if value < 145 {
                                            if value == 144 {
                                                Some(Keycode::KEY_FILE)
                                            } else {
                                                None
                                            }
                                        } else {
                                            if value == 145 {
                                                Some(Keycode::KEY_SENDFILE)
                                            } else {
                                                None
                                            }
                                        }
                                    }
                                } else {
                                    if value < 148 {
                                        if value < 147 {
                                            if value == 146 {
                                                Some(Keycode::KEY_DELETEFILE)
                                            } else {
                                                None
                                            }
                                        } else {
                                            if value == 147 {
                                                Some(Keycode::KEY_XFER)
                                            } else {
                                                None
                                            }
                                        }
                                    } else {
                                        if value < 149 {
                                            if value == 148 {
                                                Some(Keycode::KEY_PROG1)
                                            } else {
                                                None
                                            }
                                        } else {
                                            if value == 149 {
                                                Some(Keycode::KEY_PROG2)
                                            } else {
                                                None
                                            }
                                        }
                                    }
                                }
                            } else {
                                if value < 154 {
                                    if value < 152 {
                                        if value < 151 {
                                            if value == 150 {
                                                Some(Keycode::KEY_WWW)
                                            } else {
                                                None
                                            }
                                        } else {
                                            if value == 151 {
                                                Some(Keycode::KEY_MSDOS)
                                            } else {
                                                None
                                            }
                                        }
                                    } else {
                                        if value < 153 {
                                            if value == 152 {
                                                Some(Keycode::KEY_COFFEE)
                                            } else {
                                                None
                                            }
                                        } else {
                                            if value == 153 {
                                                Some(Keycode::KEY_ROTATE_DISPLAY)
                                            } else {
                                                None
                                            }
                                        }
                                    }
                                } else {
                                    if value < 156 {
                                        if value < 155 {
                                            if value == 154 {
                                                Some(Keycode::KEY_CYCLEWINDOWS)
                                            } else {
                                                None
                                            }
                                        } else {
                                            if value == 155 {
                                                Some(Keycode::KEY_MAIL)
                                            } else {
                                                None
                                            }
                                        }
                                    } else {
                                        if value < 157 {
                                            if value == 156 {
                                                Some(Keycode::KEY_BOOKMARKS)
                                            } else {
                                                None
                                            }
                                        } else {
                                            if value == 157 {
                                                Some(Keycode::KEY_COMPUTER)
                                            } else {
                                                None
                                            }
                                        }
                                    }
                                }
                            }
                        }
                    } else {
                        if value < 174 {
                            if value < 166 {
                                if value < 162 {
                                    if value < 160 {
                                        if value < 159 {
                                            if value == 158 {
                                                Some(Keycode::KEY_BACK)
                                            } else {
                                                None
                                            }
                                        } else {
                                            if value == 159 {
                                                Some(Keycode::KEY_FORWARD)
                                            } else {
                                                None
                                            }
                                        }
                                    } else {
                                        if value < 161 {
                                            if value == 160 {
                                                Some(Keycode::KEY_CLOSECD)
                                            } else {
                                                None
                                            }
                                        } else {
                                            if value == 161 {
                                                Some(Keycode::KEY_EJECTCD)
                                            } else {
                                                None
                                            }
                                        }
                                    }
                                } else {
                                    if value < 164 {
                                        if value < 163 {
                                            if value == 162 {
                                                Some(Keycode::KEY_EJECTCLOSECD)
                                            } else {
                                                None
                                            }
                                        } else {
                                            if value == 163 {
                                                Some(Keycode::KEY_NEXTSONG)
                                            } else {
                                                None
                                            }
                                        }
                                    } else {
                                        if value < 165 {
                                            if value == 164 {
                                                Some(Keycode::KEY_PLAYPAUSE)
                                            } else {
                                                None
                                            }
                                        } else {
                                            if value == 165 {
                                                Some(Keycode::KEY_PREVIOUSSONG)
                                            } else {
                                                None
                                            }
                                        }
                                    }
                                }
                            } else {
                                if value < 170 {
                                    if value < 168 {
                                        if value < 167 {
                                            if value == 166 {
                                                Some(Keycode::KEY_STOPCD)
                                            } else {
                                                None
                                            }
                                        } else {
                                            if value == 167 {
                                                Some(Keycode::KEY_RECORD)
                                            } else {
                                                None
                                            }
                                        }
                                    } else {
                                        if value < 169 {
                                            if value == 168 {
                                                Some(Keycode::KEY_REWIND)
                                            } else {
                                                None
                                            }
                                        } else {
                                            if value == 169 {
                                                Some(Keycode::KEY_PHONE)
                                            } else {
                                                None
                                            }
                                        }
                                    }
                                } else {
                                    if value < 172 {
                                        if value < 171 {
                                            if value == 170 {
                                                Some(Keycode::KEY_ISO)
                                            } else {
                                                None
                                            }
                                        } else {
                                            if value == 171 {
                                                Some(Keycode::KEY_CONFIG)
                                            } else {
                                                None
                                            }
                                        }
                                    } else {
                                        if value < 173 {
                                            if value == 172 {
                                                Some(Keycode::KEY_HOMEPAGE)
                                            } else {
                                                None
                                            }
                                        } else {
                                            if value == 173 {
                                                Some(Keycode::KEY_REFRESH)
                                            } else {
                                                None
                                            }
                                        }
                                    }
                                }
                            }
                        } else {
                            if value < 182 {
                                if value < 178 {
                                    if value < 176 {
                                        if value < 175 {
                                            if value == 174 {
                                                Some(Keycode::KEY_EXIT)
                                            } else {
                                                None
                                            }
                                        } else {
                                            if value == 175 {
                                                Some(Keycode::KEY_MOVE)
                                            } else {
                                                None
                                            }
                                        }
                                    } else {
                                        if value < 177 {
                                            if value == 176 {
                                                Some(Keycode::KEY_EDIT)
                                            } else {
                                                None
                                            }
                                        } else {
                                            if value == 177 {
                                                Some(Keycode::KEY_SCROLLUP)
                                            } else {
                                                None
                                            }
                                        }
                                    }
                                } else {
                                    if value < 180 {
                                        if value < 179 {
                                            if value == 178 {
                                                Some(Keycode::KEY_SCROLLDOWN)
                                            } else {
                                                None
                                            }
                                        } else {
                                            if value == 179 {
                                                Some(Keycode::KEY_KPLEFTPAREN)
                                            } else {
                                                None
                                            }
                                        }
                                    } else {
                                        if value < 181 {
                                            if value == 180 {
                                                Some(Keycode::KEY_KPRIGHTPAREN)
                                            } else {
                                                None
                                            }
                                        } else {
                                            if value == 181 {
                                                Some(Keycode::KEY_NEW)
                                            } else {
                                                None
                                            }
                                        }
                                    }
                                }
                            } else {
                                if value < 186 {
                                    if value < 184 {
                                        if value < 183 {
                                            if value == 182 {
                                                Some(Keycode::KEY_REDO)
                                            } else {
                                                None
                                            }
                                        } else {
                                            if value == 183 {
                                                Some(Keycode::KEY_F13)
                                            } else {
                                                None
                                            }
                                        }
                                    } else {
                                        if value < 185 {
                                            if value == 184 {
                                                Some(Keycode::KEY_F14)
                                            } else {
                                                None
                                            }
                                        } else {
                                            if value == 185 {
                                                Some(Keycode::KEY_F15)
                                            } else {
                                                None
                                            }
                                        }
                                    }
                                } else {
                                    if value < 188 {
                                        if value < 187 {
                                            if value == 186 {
                                                Some(Keycode::KEY_F16)
                                            } else {
                                                None
                                            }
                                        } else {
                                            if value == 187 {
                                                Some(Keycode::KEY_F17)
                                            } else {
                                                None
                                            }
                                        }
                                    } else {
                                        if value < 189 {
                                            if value == 188 {
                                                Some(Keycode::KEY_F18)
                                            } else {
                                                None
                                            }
                                        } else {
                                            if value == 189 {
                                                Some(Keycode::KEY_F19)
                                            } else {
                                                None
                                            }
                                        }
                                    }
                                }
                            }
                        }
                    }
                } else {
                    if value < 227 {
                        if value < 211 {
                            if value < 203 {
                                if value < 194 {
                                    if value < 192 {
                                        if value < 191 {
                                            if value == 190 {
                                                Some(Keycode::KEY_F20)
                                            } else {
                                                None
                                            }
                                        } else {
                                            if value == 191 {
                                                Some(Keycode::KEY_F21)
                                            } else {
                                                None
                                            }
                                        }
                                    } else {
                                        if value < 193 {
                                            if value == 192 {
                                                Some(Keycode::KEY_F22)
                                            } else {
                                                None
                                            }
                                        } else {
                                            if value == 193 {
                                                Some(Keycode::KEY_F23)
                                            } else {
                                                None
                                            }
                                        }
                                    }
                                } else {
                                    if value < 201 {
                                        if value < 200 {
                                            if value == 194 {
                                                Some(Keycode::KEY_F24)
                                            } else {
                                                None
                                            }
                                        } else {
                                            if value == 200 {
                                                Some(Keycode::KEY_PLAYCD)
                                            } else {
                                                None
                                            }
                                        }
                                    } else {
                                        if value < 202 {
                                            if value == 201 {
                                                Some(Keycode::KEY_PAUSECD)
                                            } else {
                                                None
                                            }
                                        } else {
                                            if value == 202 {
                                                Some(Keycode::KEY_PROG3)
                                            } else {
                                                None
                                            }
                                        }
                                    }
                                }
                            } else {
                                if value < 207 {
                                    if value < 205 {
                                        if value < 204 {
                                            if value == 203 {
                                                Some(Keycode::KEY_PROG4)
                                            } else {
                                                None
                                            }
                                        } else {
                                            if value == 204 {
                                                Some(Keycode::KEY_ALL_APPLICATIONS)
                                            } else {
                                                None
                                            }
                                        }
                                    } else {
                                        if value < 206 {
                                            if value == 205 {
                                                Some(Keycode::KEY_SUSPEND)
                                            } else {
                                                None
                                            }
                                        } else {
                                            if value == 206 {
                                                Some(Keycode::KEY_CLOSE)
                                            } else {
                                                None
                                            }
                                        }
                                    }
                                } else {
                                    if value < 209 {
                                        if value < 208 {
                                            if value == 207 {
                                                Some(Keycode::KEY_PLAY)
                                            } else {
                                                None
                                            }
                                        } else {
                                            if value == 208 {
                                                Some(Keycode::KEY_FASTFORWARD)
                                            } else {
                                                None
                                            }
                                        }
                                    } else {
                                        if value < 210 {
                                            if value == 209 {
                                                Some(Keycode::KEY_BASSBOOST)
                                            } else {
                                                None
                                            }
                                        } else {
                                            if value == 210 {
                                                Some(Keycode::KEY_PRINT)
                                            } else {
                                                None
                                            }
                                        }
                                    }
                                }
                            }
                        } else {
                            if value < 219 {
                                if value < 215 {
                                    if value < 213 {
                                        if value < 212 {
                                            if value == 211 {
                                                Some(Keycode::KEY_HP)
                                            } else {
                                                None
                                            }
                                        } else {
                                            if value == 212 {
                                                Some(Keycode::KEY_CAMERA)
                                            } else {
                                                None
                                            }
                                        }
                                    } else {
                                        if value < 214 {
                                            if value == 213 {
                                                Some(Keycode::KEY_SOUND)
                                            } else {
                                                None
                                            }
                                        } else {
                                            if value == 214 {
                                                Some(Keycode::KEY_QUESTION)
                                            } else {
                                                None
                                            }
                                        }
                                    }
                                } else {
                                    if value < 217 {
                                        if value < 216 {
                                            if value == 215 {
                                                Some(Keycode::KEY_EMAIL)
                                            } else {
                                                None
                                            }
                                        } else {
                                            if value == 216 {
                                                Some(Keycode::KEY_CHAT)
                                            } else {
                                                None
                                            }
                                        }
                                    } else {
                                        if value < 218 {
                                            if value == 217 {
                                                Some(Keycode::KEY_SEARCH)
                                            } else {
                                                None
                                            }
                                        } else {
                                            if value == 218 {
                                                Some(Keycode::KEY_CONNECT)
                                            } else {
                                                None
                                            }
                                        }
                                    }
                                }
                            } else {
                                if value < 223 {
                                    if value < 221 {
                                        if value < 220 {
                                            if value == 219 {
                                                Some(Keycode::KEY_FINANCE)
                                            } else {
                                                None
                                            }
                                        } else {
                                            if value == 220 {
                                                Some(Keycode::KEY_SPORT)
                                            } else {
                                                None
                                            }
                                        }
                                    } else {
                                        if value < 222 {
                                            if value == 221 {
                                                Some(Keycode::KEY_SHOP)
                                            } else {
                                                None
                                            }
                                        } else {
                                            if value == 222 {
                                                Some(Keycode::KEY_ALTERASE)
                                            } else {
                                                None
                                            }
                                        }
                                    }
                                } else {
                                    if value < 225 {
                                        if value < 224 {
                                            if value == 223 {
                                                Some(Keycode::KEY_CANCEL)
                                            } else {
                                                None
                                            }
                                        } else {
                                            if value == 224 {
                                                Some(Keycode::KEY_BRIGHTNESSDOWN)
                                            } else {
                                                None
                                            }
                                        }
                                    } else {
                                        if value < 226 {
                                            if value == 225 {
                                                Some(Keycode::KEY_BRIGHTNESSUP)
                                            } else {
                                                None
                                            }
                                        } else {
                                            if value == 226 {
                                                Some(Keycode::KEY_MEDIA)
                                            } else {
                                                None
                                            }
                                        }
                                    }
                                }
                            }
                        }
                    } else {
                        if value < 243 {
                            if value < 235 {
                                if value < 231 {
                                    if value < 229 {
                                        if value < 228 {
                                            if value == 227 {
                                                Some(Keycode::KEY_SWITCHVIDEOMODE)
                                            } else {
                                                None
                                            }
                                        } else {
                                            if value == 228 {
                                                Some(Keycode::KEY_KBDILLUMTOGGLE)
                                            } else {
                                                None
                                            }
                                        }
                                    } else {
                                        if value < 230 {
                                            if value == 229 {
                                                Some(Keycode::KEY_KBDILLUMDOWN)
                                            } else {
                                                None
                                            }
                                        } else {
                                            if value == 230 {
                                                Some(Keycode::KEY_KBDILLUMUP)
                                            } else {
                                                None
                                            }
                                        }
                                    }
                                } else {
                                    if value < 233 {
                                        if value < 232 {
                                            if value == 231 {
                                                Some(Keycode::KEY_SEND)
                                            } else {
                                                None
                                            }
                                        } else {
                                            if value == 232 {
                                                Some(Keycode::KEY_REPLY)
                                            } else {
                                                None
                                            }
                                        }
                                    } else {
                                        if value < 234 {
                                            if value == 233 {
                                                Some(Keycode::KEY_FORWARDMAIL)
                                            } else {
                                                None
                                            }
                                        } else {
                                            if value == 234 {
                                                Some(Keycode::KEY_SAVE)
                                            } else {
                                                None
                                            }
                                        }
                                    }
                                }
                            } else {
                                if value < 239 {
                                    if value < 237 {
                                        if value < 236 {
                                            if value == 235 {
                                                Some(Keycode::KEY_DOCUMENTS)
                                            } else {
                                                None
                                            }
                                        } else {
                                            if value == 236 {
                                                Some(Keycode::KEY_BATTERY)
                                            } else {
                                                None
                                            }
                                        }
                                    } else {
                                        if value < 238 {
                                            if value == 237 {
                                                Some(Keycode::KEY_BLUETOOTH)
                                            } else {
                                                None
                                            }
                                        } else {
                                            if value == 238 {
                                                Some(Keycode::KEY_WLAN)
                                            } else {
                                                None
                                            }
                                        }
                                    }
                                } else {
                                    if value < 241 {
                                        if value < 240 {
                                            if value == 239 {
                                                Some(Keycode::KEY_UWB)
                                            } else {
                                                None
                                            }
                                        } else {
                                            if value == 240 {
                                                Some(Keycode::KEY_UNKNOWN)
                                            } else {
                                                None
                                            }
                                        }
                                    } else {
                                        if value < 242 {
                                            if value == 241 {
                                                Some(Keycode::KEY_VIDEO_NEXT)
                                            } else {
                                                None
                                            }
                                        } else {
                                            if value == 242 {
                                                Some(Keycode::KEY_VIDEO_PREV)
                                            } else {
                                                None
                                            }
                                        }
                                    }
                                }
                            }
                        } else {
                            if value < 354 {
                                if value < 247 {
                                    if value < 245 {
                                        if value < 244 {
                                            if value == 243 {
                                                Some(Keycode::KEY_BRIGHTNESS_CYCLE)
                                            } else {
                                                None
                                            }
                                        } else {
                                            if value == 244 {
                                                Some(Keycode::KEY_BRIGHTNESS_AUTO)
                                            } else {
                                                None
                                            }
                                        }
                                    } else {
                                        if value < 246 {
                                            if value == 245 {
                                                Some(Keycode::KEY_DISPLAY_OFF)
                                            } else {
                                                None
                                            }
                                        } else {
                                            if value == 246 {
                                                Some(Keycode::KEY_WWAN)
                                            } else {
                                                None
                                            }
                                        }
                                    }
                                } else {
                                    if value < 352 {
                                        if value < 248 {
                                            if value == 247 {
                                                Some(Keycode::KEY_RFKILL)
                                            } else {
                                                None
                                            }
                                        } else {
                                            if value == 248 {
                                                Some(Keycode::KEY_MICMUTE)
                                            } else {
                                                None
                                            }
                                        }
                                    } else {
                                        if value < 353 {
                                            if value == 352 {
                                                Some(Keycode::KEY_OK)
                                            } else {
                                                None
                                            }
                                        } else {
                                            if value == 353 {
                                                Some(Keycode::KEY_SELECT)
                                            } else {
                                                None
                                            }
                                        }
                                    }
                                }
                            } else {
                                if value < 358 {
                                    if value < 356 {
                                        if value < 355 {
                                            if value == 354 {
                                                Some(Keycode::KEY_GOTO)
                                            } else {
                                                None
                                            }
                                        } else {
                                            if value == 355 {
                                                Some(Keycode::KEY_CLEAR)
                                            } else {
                                                None
                                            }
                                        }
                                    } else {
                                        if value < 357 {
                                            if value == 356 {
                                                Some(Keycode::KEY_POWER2)
                                            } else {
                                                None
                                            }
                                        } else {
                                            if value == 357 {
                                                Some(Keycode::KEY_OPTION)
                                            } else {
                                                None
                                            }
                                        }
                                    }
                                } else {
                                    if value < 360 {
                                        if value < 359 {
                                            if value == 358 {
                                                Some(Keycode::KEY_INFO)
                                            } else {
                                                None
                                            }
                                        } else {
                                            if value == 359 {
                                                Some(Keycode::KEY_TIME)
                                            } else {
                                                None
                                            }
                                        }
                                    } else {
                                        if value < 361 {
                                            if value == 360 {
                                                Some(Keycode::KEY_VENDOR)
                                            } else {
                                                None
                                            }
                                        } else {
                                            if value == 361 {
                                                Some(Keycode::KEY_ARCHIVE)
                                            } else {
                                                None
                                            }
                                        }
                                    }
                                }
                            }
                        }
                    }
                }
            }
        } else {
            if value < 517 {
                if value < 425 {
                    if value < 393 {
                        if value < 377 {
                            if value < 369 {
                                if value < 365 {
                                    if value < 363 {
                                        if value == 362 {
                                            Some(Keycode::KEY_PROGRAM)
                                        } else {
                                            None
                                        }
                                    } else {
                                        if value < 364 {
                                            if value == 363 {
                                                Some(Keycode::KEY_CHANNEL)
                                            } else {
                                                None
                                            }
                                        } else {
                                            if value == 364 {
                                                Some(Keycode::KEY_FAVORITES)
                                            } else {
                                                None
                                            }
                                        }
                                    }
                                } else {
                                    if value < 367 {
                                        if value < 366 {
                                            if value == 365 {
                                                Some(Keycode::KEY_EPG)
                                            } else {
                                                None
                                            }
                                        } else {
                                            if value == 366 {
                                                Some(Keycode::KEY_PVR)
                                            } else {
                                                None
                                            }
                                        }
                                    } else {
                                        if value < 368 {
                                            if value == 367 {
                                                Some(Keycode::KEY_MHP)
                                            } else {
                                                None
                                            }
                                        } else {
                                            if value == 368 {
                                                Some(Keycode::KEY_LANGUAGE)
                                            } else {
                                                None
                                            }
                                        }
                                    }
                                }
                            } else {
                                if value < 373 {
                                    if value < 371 {
                                        if value < 370 {
                                            if value == 369 {
                                                Some(Keycode::KEY_TITLE)
                                            } else {
                                                None
                                            }
                                        } else {
                                            if value == 370 {
                                                Some(Keycode::KEY_SUBTITLE)
                                            } else {
                                                None
                                            }
                                        }
                                    } else {
                                        if value < 372 {
                                            if value == 371 {
                                                Some(Keycode::KEY_ANGLE)
                                            } else {
                                                None
                                            }
                                        } else {
                                            if value == 372 {
                                                Some(Keycode::KEY_FULL_SCREEN)
                                            } else {
                                                None
                                            }
                                        }
                                    }
                                } else {
                                    if value < 375 {
                                        if value < 374 {
                                            if value == 373 {
                                                Some(Keycode::KEY_MODE)
                                            } else {
                                                None
                                            }
                                        } else {
                                            if value == 374 {
                                                Some(Keycode::KEY_KEYBOARD)
                                            } else {
                                                None
                                            }
                                        }
                                    } else {
                                        if value < 376 {
                                            if value == 375 {
                                                Some(Keycode::KEY_ASPECT_RATIO)
                                            } else {
                                                None
                                            }
                                        } else {
                                            if value == 376 {
                                                Some(Keycode::KEY_PC)
                                            } else {
                                                None
                                            }
                                        }
                                    }
                                }
                            }
                        } else {
                            if value < 385 {
                                if value < 381 {
                                    if value < 379 {
                                        if value < 378 {
                                            if value == 377 {
                                                Some(Keycode::KEY_TV)
                                            } else {
                                                None
                                            }
                                        } else {
                                            if value == 378 {
                                                Some(Keycode::KEY_TV2)
                                            } else {
                                                None
                                            }
                                        }
                                    } else {
                                        if value < 380 {
                                            if value == 379 {
                                                Some(Keycode::KEY_VCR)
                                            } else {
                                                None
                                            }
                                        } else {
                                            if value == 380 {
                                                Some(Keycode::KEY_VCR2)
                                            } else {
                                                None
                                            }
                                        }
                                    }
                                } else {
                                    if value < 383 {
                                        if value < 382 {
                                            if value == 381 {
                                                Some(Keycode::KEY_SAT)
                                            } else {
                                                None
                                            }
                                        } else {
                                            if value == 382 {
                                                Some(Keycode::KEY_SAT2)
                                            } else {
                                                None
                                            }
                                        }
                                    } else {
                                        if value < 384 {
                                            if value == 383 {
                                                Some(Keycode::KEY_CD)
                                            } else {
                                                None
                                            }
                                        } else {
                                            if value == 384 {
                                                Some(Keycode::KEY_TAPE)
                                            } else {
                                                None
                                            }
                                        }
                                    }
                                }
                            } else {
                                if value < 389 {
                                    if value < 387 {
                                        if value < 386 {
                                            if value == 385 {
                                                Some(Keycode::KEY_RADIO)
                                            } else {
                                                None
                                            }
                                        } else {
                                            if value == 386 {
                                                Some(Keycode::KEY_TUNER)
                                            } else {
                                                None
                                            }
                                        }
                                    } else {
                                        if value < 388 {
                                            if value == 387 {
                                                Some(Keycode::KEY_PLAYER)
                                            } else {
                                                None
                                            }
                                        } else {
                                            if value == 388 {
                                                Some(Keycode::KEY_TEXT)
                                            } else {
                                                None
                                            }
                                        }
                                    }
                                } else {
                                    if value < 391 {
                                        if value < 390 {
                                            if value == 389 {
                                                Some(Keycode::KEY_DVD)
                                            } else {
                                                None
                                            }
                                        } else {
                                            if value == 390 {
                                                Some(Keycode::KEY_AUX)
                                            } else {
                                                None
                                            }
                                        }
                                    } else {
                                        if value < 392 {
                                            if value == 391 {
                                                Some(Keycode::KEY_MP3)
                                            } else {
                                                None
                                            }
                                        } else {
                                            if value == 392 {
                                                Some(Keycode::KEY_AUDIO)
                                            } else {
                                                None
                                            }
                                        }
                                    }
                                }
                            }
                        }
                    } else {
                        if value < 409 {
                            if value < 401 {
                                if value < 397 {
                                    if value < 395 {
                                        if value < 394 {
                                            if value == 393 {
                                                Some(Keycode::KEY_VIDEO)
                                            } else {
                                                None
                                            }
                                        } else {
                                            if value == 394 {
                                                Some(Keycode::KEY_DIRECTORY)
                                            } else {
                                                None
                                            }
                                        }
                                    } else {
                                        if value < 396 {
                                            if value == 395 {
                                                Some(Keycode::KEY_LIST)
                                            } else {
                                                None
                                            }
                                        } else {
                                            if value == 396 {
                                                Some(Keycode::KEY_MEMO)
                                            } else {
                                                None
                                            }
                                        }
                                    }
                                } else {
                                    if value < 399 {
                                        if value < 398 {
                                            if value == 397 {
                                                Some(Keycode::KEY_CALENDAR)
                                            } else {
                                                None
                                            }
                                        } else {
                                            if value == 398 {
                                                Some(Keycode::KEY_RED)
                                            } else {
                                                None
                                            }
                                        }
                                    } else {
                                        if value < 400 {
                                            if value == 399 {
                                                Some(Keycode::KEY_GREEN)
                                            } else {
                                                None
                                            }
                                        } else {
                                            if value == 400 {
                                                Some(Keycode::KEY_YELLOW)
                                            } else {
                                                None
                                            }
                                        }
                                    }
                                }
                            } else {
                                if value < 405 {
                                    if value < 403 {
                                        if value < 402 {
                                            if value == 401 {
                                                Some(Keycode::KEY_BLUE)
                                            } else {
                                                None
                                            }
                                        } else {
                                            if value == 402 {
                                                Some(Keycode::KEY_CHANNELUP)
                                            } else {
                                                None
                                            }
                                        }
                                    } else {
                                        if value < 404 {
                                            if value == 403 {
                                                Some(Keycode::KEY_CHANNELDOWN)
                                            } else {
                                                None
                                            }
                                        } else {
                                            if value == 404 {
                                                Some(Keycode::KEY_FIRST)
                                            } else {
                                                None
                                            }
                                        }
                                    }
                                } else {
                                    if value < 407 {
                                        if value < 406 {
                                            if value == 405 {
                                                Some(Keycode::KEY_LAST)
                                            } else {
                                                None
                                            }
                                        } else {
                                            if value == 406 {
                                                Some(Keycode::KEY_AB)
                                            } else {
                                                None
                                            }
                                        }
                                    } else {
                                        if value < 408 {
                                            if value == 407 {
                                                Some(Keycode::KEY_NEXT)
                                            } else {
                                                None
                                            }
                                        } else {
                                            if value == 408 {
                                                Some(Keycode::KEY_RESTART)
                                            } else {
                                                None
                                            }
                                        }
                                    }
                                }
                            }
                        } else {
                            if value < 417 {
                                if value < 413 {
                                    if value < 411 {
                                        if value < 410 {
                                            if value == 409 {
                                                Some(Keycode::KEY_SLOW)
                                            } else {
                                                None
                                            }
                                        } else {
                                            if value == 410 {
                                                Some(Keycode::KEY_SHUFFLE)
                                            } else {
                                                None
                                            }
                                        }
                                    } else {
                                        if value < 412 {
                                            if value == 411 {
                                                Some(Keycode::KEY_BREAK)
                                            } else {
                                                None
                                            }
                                        } else {
                                            if value == 412 {
                                                Some(Keycode::KEY_PREVIOUS)
                                            } else {
                                                None
                                            }
                                        }
                                    }
                                } else {
                                    if value < 415 {
                                        if value < 414 {
                                            if value == 413 {
                                                Some(Keycode::KEY_DIGITS)
                                            } else {
                                                None
                                            }
                                        } else {
                                            if value == 414 {
                                                Some(Keycode::KEY_TEEN)
                                            } else {
                                                None
                                            }
                                        }
                                    } else {
                                        if value < 416 {
                                            if value == 415 {
                                                Some(Keycode::KEY_TWEN)
                                            } else {
                                                None
                                            }
                                        } else {
                                            if value == 416 {
                                                Some(Keycode::KEY_VIDEOPHONE)
                                            } else {
                                                None
                                            }
                                        }
                                    }
                                }
                            } else {
                                if value < 421 {
                                    if value < 419 {
                                        if value < 418 {
                                            if value == 417 {
                                                Some(Keycode::KEY_GAMES)
                                            } else {
                                                None
                                            }
                                        } else {
                                            if value == 418 {
                                                Some(Keycode::KEY_ZOOMIN)
                                            } else {
                                                None
                                            }
                                        }
                                    } else {
                                        if value < 420 {
                                            if value == 419 {
                                                Some(Keycode::KEY_ZOOMOUT)
                                            } else {
                                                None
                                            }
                                        } else {
                                            if value == 420 {
                                                Some(Keycode::KEY_ZOOMRESET)
                                            } else {
                                                None
                                            }
                                        }
                                    }
                                } else {
                                    if value < 423 {
                                        if value < 422 {
                                            if value == 421 {
                                                Some(Keycode::KEY_WORDPROCESSOR)
                                            } else {
                                                None
                                            }
                                        } else {
                                            if value == 422 {
                                                Some(Keycode::KEY_EDITOR)
                                            } else {
                                                None
                                            }
                                        }
                                    } else {
                                        if value < 424 {
                                            if value == 423 {
                                                Some(Keycode::KEY_SPREADSHEET)
                                            } else {
                                                None
                                            }
                                        } else {
                                            if value == 424 {
                                                Some(Keycode::KEY_GRAPHICSEDITOR)
                                            } else {
                                                None
                                            }
                                        }
                                    }
                                }
                            }
                        }
                    }
                } else {
                    if value < 469 {
                        if value < 440 {
                            if value < 432 {
                                if value < 428 {
                                    if value < 426 {
                                        if value == 425 {
                                            Some(Keycode::KEY_PRESENTATION)
                                        } else {
                                            None
                                        }
                                    } else {
                                        if value < 427 {
                                            if value == 426 {
                                                Some(Keycode::KEY_DATABASE)
                                            } else {
                                                None
                                            }
                                        } else {
                                            if value == 427 {
                                                Some(Keycode::KEY_NEWS)
                                            } else {
                                                None
                                            }
                                        }
                                    }
                                } else {
                                    if value < 430 {
                                        if value < 429 {
                                            if value == 428 {
                                                Some(Keycode::KEY_VOICEMAIL)
                                            } else {
                                                None
                                            }
                                        } else {
                                            if value == 429 {
                                                Some(Keycode::KEY_ADDRESSBOOK)
                                            } else {
                                                None
                                            }
                                        }
                                    } else {
                                        if value < 431 {
                                            if value == 430 {
                                                Some(Keycode::KEY_MESSENGER)
                                            } else {
                                                None
                                            }
                                        } else {
                                            if value == 431 {
                                                Some(Keycode::KEY_DISPLAYTOGGLE)
                                            } else {
                                                None
                                            }
                                        }
                                    }
                                }
                            } else {
                                if value < 436 {
                                    if value < 434 {
                                        if value < 433 {
                                            if value == 432 {
                                                Some(Keycode::KEY_SPELLCHECK)
                                            } else {
                                                None
                                            }
                                        } else {
                                            if value == 433 {
                                                Some(Keycode::KEY_LOGOFF)
                                            } else {
                                                None
                                            }
                                        }
                                    } else {
                                        if value < 435 {
                                            if value == 434 {
                                                Some(Keycode::KEY_DOLLAR)
                                            } else {
                                                None
                                            }
                                        } else {
                                            if value == 435 {
                                                Some(Keycode::KEY_EURO)
                                            } else {
                                                None
                                            }
                                        }
                                    }
                                } else {
                                    if value < 438 {
                                        if value < 437 {
                                            if value == 436 {
                                                Some(Keycode::KEY_FRAMEBACK)
                                            } else {
                                                None
                                            }
                                        } else {
                                            if value == 437 {
                                                Some(Keycode::KEY_FRAMEFORWARD)
                                            } else {
                                                None
                                            }
                                        }
                                    } else {
                                        if value < 439 {
                                            if value == 438 {
                                                Some(Keycode::KEY_CONTEXT_MENU)
                                            } else {
                                                None
                                            }
                                        } else {
                                            if value == 439 {
                                                Some(Keycode::KEY_MEDIA_REPEAT)
                                            } else {
                                                None
                                            }
                                        }
                                    }
                                }
                            }
                        } else {
                            if value < 449 {
                                if value < 445 {
                                    if value < 442 {
                                        if value < 441 {
                                            if value == 440 {
                                                Some(Keycode::KEY_10CHANNELSUP)
                                            } else {
                                                None
                                            }
                                        } else {
                                            if value == 441 {
                                                Some(Keycode::KEY_10CHANNELSDOWN)
                                            } else {
                                                None
                                            }
                                        }
                                    } else {
                                        if value < 444 {
                                            if value == 442 {
                                                Some(Keycode::KEY_IMAGES)
                                            } else {
                                                None
                                            }
                                        } else {
                                            if value == 444 {
                                                Some(Keycode::KEY_NOTIFICATION_CENTER)
                                            } else {
                                                None
                                            }
                                        }
                                    }
                                } else {
                                    if value < 447 {
                                        if value < 446 {
                                            if value == 445 {
                                                Some(Keycode::KEY_PICKUP_PHONE)
                                            } else {
                                                None
                                            }
                                        } else {
                                            if value == 446 {
                                                Some(Keycode::KEY_HANGUP_PHONE)
                                            } else {
                                                None
                                            }
                                        }
                                    } else {
                                        if value < 448 {
                                            if value == 447 {
                                                Some(Keycode::KEY_LINK_PHONE)
                                            } else {
                                                None
                                            }
                                        } else {
                                            if value == 448 {
                                                Some(Keycode::KEY_DEL_EOL)
                                            } else {
                                                None
                                            }
                                        }
                                    }
                                }
                            } else {
                                if value < 465 {
                                    if value < 451 {
                                        if value < 450 {
                                            if value == 449 {
                                                Some(Keycode::KEY_DEL_EOS)
                                            } else {
                                                None
                                            }
                                        } else {
                                            if value == 450 {
                                                Some(Keycode::KEY_INS_LINE)
                                            } else {
                                                None
                                            }
                                        }
                                    } else {
                                        if value < 464 {
                                            if value == 451 {
                                                Some(Keycode::KEY_DEL_LINE)
                                            } else {
                                                None
                                            }
                                        } else {
                                            if value == 464 {
                                                Some(Keycode::KEY_FN)
                                            } else {
                                                None
                                            }
                                        }
                                    }
                                } else {
                                    if value < 467 {
                                        if value < 466 {
                                            if value == 465 {
                                                Some(Keycode::KEY_FN_ESC)
                                            } else {
                                                None
                                            }
                                        } else {
                                            if value == 466 {
                                                Some(Keycode::KEY_FN_F1)
                                            } else {
                                                None
                                            }
                                        }
                                    } else {
                                        if value < 468 {
                                            if value == 467 {
                                                Some(Keycode::KEY_FN_F2)
                                            } else {
                                                None
                                            }
                                        } else {
                                            if value == 468 {
                                                Some(Keycode::KEY_FN_F3)
                                            } else {
                                                None
                                            }
                                        }
                                    }
                                }
                            }
                        }
                    } else {
                        if value < 485 {
                            if value < 477 {
                                if value < 473 {
                                    if value < 471 {
                                        if value < 470 {
                                            if value == 469 {
                                                Some(Keycode::KEY_FN_F4)
                                            } else {
                                                None
                                            }
                                        } else {
                                            if value == 470 {
                                                Some(Keycode::KEY_FN_F5)
                                            } else {
                                                None
                                            }
                                        }
                                    } else {
                                        if value < 472 {
                                            if value == 471 {
                                                Some(Keycode::KEY_FN_F6)
                                            } else {
                                                None
                                            }
                                        } else {
                                            if value == 472 {
                                                Some(Keycode::KEY_FN_F7)
                                            } else {
                                                None
                                            }
                                        }
                                    }
                                } else {
                                    if value < 475 {
                                        if value < 474 {
                                            if value == 473 {
                                                Some(Keycode::KEY_FN_F8)
                                            } else {
                                                None
                                            }
                                        } else {
                                            if value == 474 {
                                                Some(Keycode::KEY_FN_F9)
                                            } else {
                                                None
                                            }
                                        }
                                    } else {
                                        if value < 476 {
                                            if value == 475 {
                                                Some(Keycode::KEY_FN_F10)
                                            } else {
                                                None
                                            }
                                        } else {
                                            if value == 476 {
                                                Some(Keycode::KEY_FN_F11)
                                            } else {
                                                None
                                            }
                                        }
                                    }
                                }
                            } else {
                                if value < 481 {
                                    if value < 479 {
                                        if value < 478 {
                                            if value == 477 {
                                                Some(Keycode::KEY_FN_F12)
                                            } else {
                                                None
                                            }
                                        } else {
                                            if value == 478 {
                                                Some(Keycode::KEY_FN_1)
                                            } else {
                                                None
                                            }
                                        }
                                    } else {
                                        if value < 480 {
                                            if value == 479 {
                                                Some(Keycode::KEY_FN_2)
                                            } else {
                                                None
                                            }
                                        } else {
                                            if value == 480 {
                                                Some(Keycode::KEY_FN_D)
                                            } else {
                                                None
                                            }
                                        }
                                    }
                                } else {
                                    if value < 483 {
                                        if value < 482 {
                                            if value == 481 {
                                                Some(Keycode::KEY_FN_E)
                                            } else {
                                                None
                                            }
                                        } else {
                                            if value == 482 {
                                                Some(Keycode::KEY_FN_F)
                                            } else {
                                                None
                                            }
                                        }
                                    } else {
                                        if value < 484 {
                                            if value == 483 {
                                                Some(Keycode::KEY_FN_S)
                                            } else {
                                                None
                                            }
                                        } else {
                                            if value == 484 {
                                                Some(Keycode::KEY_FN_B)
                                            } else {
                                                None
                                            }
                                        }
                                    }
                                }
                            }
                        } else {
                            if value < 504 {
                                if value < 500 {
                                    if value < 498 {
                                        if value < 497 {
                                            if value == 485 {
                                                Some(Keycode::KEY_FN_RIGHT_SHIFT)
                                            } else {
                                                None
                                            }
                                        } else {
                                            if value == 497 {
                                                Some(Keycode::KEY_BRL_DOT1)
                                            } else {
                                                None
                                            }
                                        }
                                    } else {
                                        if value < 499 {
                                            if value == 498 {
                                                Some(Keycode::KEY_BRL_DOT2)
                                            } else {
                                                None
                                            }
                                        } else {
                                            if value == 499 {
                                                Some(Keycode::KEY_BRL_DOT3)
                                            } else {
                                                None
                                            }
                                        }
                                    }
                                } else {
                                    if value < 502 {
                                        if value < 501 {
                                            if value == 500 {
                                                Some(Keycode::KEY_BRL_DOT4)
                                            } else {
                                                None
                                            }
                                        } else {
                                            if value == 501 {
                                                Some(Keycode::KEY_BRL_DOT5)
                                            } else {
                                                None
                                            }
                                        }
                                    } else {
                                        if value < 503 {
                                            if value == 502 {
                                                Some(Keycode::KEY_BRL_DOT6)
                                            } else {
                                                None
                                            }
                                        } else {
                                            if value == 503 {
                                                Some(Keycode::KEY_BRL_DOT7)
                                            } else {
                                                None
                                            }
                                        }
                                    }
                                }
                            } else {
                                if value < 513 {
                                    if value < 506 {
                                        if value < 505 {
                                            if value == 504 {
                                                Some(Keycode::KEY_BRL_DOT8)
                                            } else {
                                                None
                                            }
                                        } else {
                                            if value == 505 {
                                                Some(Keycode::KEY_BRL_DOT9)
                                            } else {
                                                None
                                            }
                                        }
                                    } else {
                                        if value < 512 {
                                            if value == 506 {
                                                Some(Keycode::KEY_BRL_DOT10)
                                            } else {
                                                None
                                            }
                                        } else {
                                            if value == 512 {
                                                Some(Keycode::KEY_NUMERIC_0)
                                            } else {
                                                None
                                            }
                                        }
                                    }
                                } else {
                                    if value < 515 {
                                        if value < 514 {
                                            if value == 513 {
                                                Some(Keycode::KEY_NUMERIC_1)
                                            } else {
                                                None
                                            }
                                        } else {
                                            if value == 514 {
                                                Some(Keycode::KEY_NUMERIC_2)
                                            } else {
                                                None
                                            }
                                        }
                                    } else {
                                        if value < 516 {
                                            if value == 515 {
                                                Some(Keycode::KEY_NUMERIC_3)
                                            } else {
                                                None
                                            }
                                        } else {
                                            if value == 516 {
                                                Some(Keycode::KEY_NUMERIC_4)
                                            } else {
                                                None
                                            }
                                        }
                                    }
                                }
                            }
                        }
                    }
                }
            } else {
                if value < 629 {
                    if value < 578 {
                        if value < 532 {
                            if value < 524 {
                                if value < 520 {
                                    if value < 518 {
                                        if value == 517 {
                                            Some(Keycode::KEY_NUMERIC_5)
                                        } else {
                                            None
                                        }
                                    } else {
                                        if value < 519 {
                                            if value == 518 {
                                                Some(Keycode::KEY_NUMERIC_6)
                                            } else {
                                                None
                                            }
                                        } else {
                                            if value == 519 {
                                                Some(Keycode::KEY_NUMERIC_7)
                                            } else {
                                                None
                                            }
                                        }
                                    }
                                } else {
                                    if value < 522 {
                                        if value < 521 {
                                            if value == 520 {
                                                Some(Keycode::KEY_NUMERIC_8)
                                            } else {
                                                None
                                            }
                                        } else {
                                            if value == 521 {
                                                Some(Keycode::KEY_NUMERIC_9)
                                            } else {
                                                None
                                            }
                                        }
                                    } else {
                                        if value < 523 {
                                            if value == 522 {
                                                Some(Keycode::KEY_NUMERIC_STAR)
                                            } else {
                                                None
                                            }
                                        } else {
                                            if value == 523 {
                                                Some(Keycode::KEY_NUMERIC_POUND)
                                            } else {
                                                None
                                            }
                                        }
                                    }
                                }
                            } else {
                                if value < 528 {
                                    if value < 526 {
                                        if value < 525 {
                                            if value == 524 {
                                                Some(Keycode::KEY_NUMERIC_A)
                                            } else {
                                                None
                                            }
                                        } else {
                                            if value == 525 {
                                                Some(Keycode::KEY_NUMERIC_B)
                                            } else {
                                                None
                                            }
                                        }
                                    } else {
                                        if value < 527 {
                                            if value == 526 {
                                                Some(Keycode::KEY_NUMERIC_C)
                                            } else {
                                                None
                                            }
                                        } else {
                                            if value == 527 {
                                                Some(Keycode::KEY_NUMERIC_D)
                                            } else {
                                                None
                                            }
                                        }
                                    }
                                } else {
                                    if value < 530 {
                                        if value < 529 {
                                            if value == 528 {
                                                Some(Keycode::KEY_CAMERA_FOCUS)
                                            } else {
                                                None
                                            }
                                        } else {
                                            if value == 529 {
                                                Some(Keycode::KEY_WPS_BUTTON)
                                            } else {
                                                None
                                            }
                                        }
                                    } else {
                                        if value < 531 {
                                            if value == 530 {
                                                Some(Keycode::KEY_TOUCHPAD_TOGGLE)
                                            } else {
                                                None
                                            }
                                        } else {
                                            if value == 531 {
                                                Some(Keycode::KEY_TOUCHPAD_ON)
                                            } else {
                                                None
                                            }
                                        }
                                    }
                                }
                            }
                        } else {
                            if value < 540 {
                                if value < 536 {
                                    if value < 534 {
                                        if value < 533 {
                                            if value == 532 {
                                                Some(Keycode::KEY_TOUCHPAD_OFF)
                                            } else {
                                                None
                                            }
                                        } else {
                                            if value == 533 {
                                                Some(Keycode::KEY_CAMERA_ZOOMIN)
                                            } else {
                                                None
                                            }
                                        }
                                    } else {
                                        if value < 535 {
                                            if value == 534 {
                                                Some(Keycode::KEY_CAMERA_ZOOMOUT)
                                            } else {
                                                None
                                            }
                                        } else {
                                            if value == 535 {
                                                Some(Keycode::KEY_CAMERA_UP)
                                            } else {
                                                None
                                            }
                                        }
                                    }
                                } else {
                                    if value < 538 {
                                        if value < 537 {
                                            if value == 536 {
                                                Some(Keycode::KEY_CAMERA_DOWN)
                                            } else {
                                                None
                                            }
                                        } else {
                                            if value == 537 {
                                                Some(Keycode::KEY_CAMERA_LEFT)
                                            } else {
                                                None
                                            }
                                        }
                                    } else {
                                        if value < 539 {
                                            if value == 538 {
                                                Some(Keycode::KEY_CAMERA_RIGHT)
                                            } else {
                                                None
                                            }
                                        } else {
                                            if value == 539 {
                                                Some(Keycode::KEY_ATTENDANT_ON)
                                            } else {
                                                None
                                            }
                                        }
                                    }
                                }
                            } else {
                                if value < 561 {
                                    if value < 542 {
                                        if value < 541 {
                                            if value == 540 {
                                                Some(Keycode::KEY_ATTENDANT_OFF)
                                            } else {
                                                None
                                            }
                                        } else {
                                            if value == 541 {
                                                Some(Keycode::KEY_ATTENDANT_TOGGLE)
                                            } else {
                                                None
                                            }
                                        }
                                    } else {
                                        if value < 560 {
                                            if value == 542 {
                                                Some(Keycode::KEY_LIGHTS_TOGGLE)
                                            } else {
                                                None
                                            }
                                        } else {
                                            if value == 560 {
                                                Some(Keycode::KEY_ALS_TOGGLE)
                                            } else {
                                                None
                                            }
                                        }
                                    }
                                } else {
                                    if value < 576 {
                                        if value < 562 {
                                            if value == 561 {
                                                Some(Keycode::KEY_ROTATE_LOCK_TOGGLE)
                                            } else {
                                                None
                                            }
                                        } else {
                                            if value == 562 {
                                                Some(Keycode::KEY_REFRESH_RATE_TOGGLE)
                                            } else {
                                                None
                                            }
                                        }
                                    } else {
                                        if value < 577 {
                                            if value == 576 {
                                                Some(Keycode::KEY_BUTTONCONFIG)
                                            } else {
                                                None
                                            }
                                        } else {
                                            if value == 577 {
                                                Some(Keycode::KEY_TASKMANAGER)
                                            } else {
                                                None
                                            }
                                        }
                                    }
                                }
                            }
                        }
                    } else {
                        if value < 613 {
                            if value < 586 {
                                if value < 582 {
                                    if value < 580 {
                                        if value < 579 {
                                            if value == 578 {
                                                Some(Keycode::KEY_JOURNAL)
                                            } else {
                                                None
                                            }
                                        } else {
                                            if value == 579 {
                                                Some(Keycode::KEY_CONTROLPANEL)
                                            } else {
                                                None
                                            }
                                        }
                                    } else {
                                        if value < 581 {
                                            if value == 580 {
                                                Some(Keycode::KEY_APPSELECT)
                                            } else {
                                                None
                                            }
                                        } else {
                                            if value == 581 {
                                                Some(Keycode::KEY_SCREENSAVER)
                                            } else {
                                                None
                                            }
                                        }
                                    }
                                } else {
                                    if value < 584 {
                                        if value < 583 {
                                            if value == 582 {
                                                Some(Keycode::KEY_VOICECOMMAND)
                                            } else {
                                                None
                                            }
                                        } else {
                                            if value == 583 {
                                                Some(Keycode::KEY_ASSISTANT)
                                            } else {
                                                None
                                            }
                                        }
                                    } else {
                                        if value < 585 {
                                            if value == 584 {
                                                Some(Keycode::KEY_KBD_LAYOUT_NEXT)
                                            } else {
                                                None
                                            }
                                        } else {
                                            if value == 585 {
                                                Some(Keycode::KEY_EMOJI_PICKER)
                                            } else {
                                                None
                                            }
                                        }
                                    }
                                }
                            } else {
                                if value < 609 {
                                    if value < 593 {
                                        if value < 592 {
                                            if value == 586 {
                                                Some(Keycode::KEY_DICTATE)
                                            } else {
                                                None
                                            }
                                        } else {
                                            if value == 592 {
                                                Some(Keycode::KEY_BRIGHTNESS_MIN)
                                            } else {
                                                None
                                            }
                                        }
                                    } else {
                                        if value < 608 {
                                            if value == 593 {
                                                Some(Keycode::KEY_BRIGHTNESS_MAX)
                                            } else {
                                                None
                                            }
                                        } else {
                                            if value == 608 {
                                                Some(Keycode::KEY_KBDINPUTASSIST_PREV)
                                            } else {
                                                None
                                            }
                                        }
                                    }
                                } else {
                                    if value < 611 {
                                        if value < 610 {
                                            if value == 609 {
                                                Some(Keycode::KEY_KBDINPUTASSIST_NEXT)
                                            } else {
                                                None
                                            }
                                        } else {
                                            if value == 610 {
                                                Some(Keycode::KEY_KBDINPUTASSIST_PREVGROUP)
                                            } else {
                                                None
                                            }
                                        }
                                    } else {
                                        if value < 612 {
                                            if value == 611 {
                                                Some(Keycode::KEY_KBDINPUTASSIST_NEXTGROUP)
                                            } else {
                                                None
                                            }
                                        } else {
                                            if value == 612 {
                                                Some(Keycode::KEY_KBDINPUTASSIST_ACCEPT)
                                            } else {
                                                None
                                            }
                                        }
                                    }
                                }
                            }
                        } else {
                            if value < 621 {
                                if value < 617 {
                                    if value < 615 {
                                        if value < 614 {
                                            if value == 613 {
                                                Some(Keycode::KEY_KBDINPUTASSIST_CANCEL)
                                            } else {
                                                None
                                            }
                                        } else {
                                            if value == 614 {
                                                Some(Keycode::KEY_RIGHT_UP)
                                            } else {
                                                None
                                            }
                                        }
                                    } else {
                                        if value < 616 {
                                            if value == 615 {
                                                Some(Keycode::KEY_RIGHT_DOWN)
                                            } else {
                                                None
                                            }
                                        } else {
                                            if value == 616 {
                                                Some(Keycode::KEY_LEFT_UP)
                                            } else {
                                                None
                                            }
                                        }
                                    }
                                } else {
                                    if value < 619 {
                                        if value < 618 {
                                            if value == 617 {
                                                Some(Keycode::KEY_LEFT_DOWN)
                                            } else {
                                                None
                                            }
                                        } else {
                                            if value == 618 {
                                                Some(Keycode::KEY_ROOT_MENU)
                                            } else {
                                                None
                                            }
                                        }
                                    } else {
                                        if value < 620 {
                                            if value == 619 {
                                                Some(Keycode::KEY_MEDIA_TOP_MENU)
                                            } else {
                                                None
                                            }
                                        } else {
                                            if value == 620 {
                                                Some(Keycode::KEY_NUMERIC_11)
                                            } else {
                                                None
                                            }
                                        }
                                    }
                                }
                            } else {
                                if value < 625 {
                                    if value < 623 {
                                        if value < 622 {
                                            if value == 621 {
                                                Some(Keycode::KEY_NUMERIC_12)
                                            } else {
                                                None
                                            }
                                        } else {
                                            if value == 622 {
                                                Some(Keycode::KEY_AUDIO_DESC)
                                            } else {
                                                None
                                            }
                                        }
                                    } else {
                                        if value < 624 {
                                            if value == 623 {
                                                Some(Keycode::KEY_3D_MODE)
                                            } else {
                                                None
                                            }
                                        } else {
                                            if value == 624 {
                                                Some(Keycode::KEY_NEXT_FAVORITE)
                                            } else {
                                                None
                                            }
                                        }
                                    }
                                } else {
                                    if value < 627 {
                                        if value < 626 {
                                            if value == 625 {
                                                Some(Keycode::KEY_STOP_RECORD)
                                            } else {
                                                None
                                            }
                                        } else {
                                            if value == 626 {
                                                Some(Keycode::KEY_PAUSE_RECORD)
                                            } else {
                                                None
                                            }
                                        }
                                    } else {
                                        if value < 628 {
                                            if value == 627 {
                                                Some(Keycode::KEY_VOD)
                                            } else {
                                                None
                                            }
                                        } else {
                                            if value == 628 {
                                                Some(Keycode::KEY_UNMUTE)
                                            } else {
                                                None
                                            }
                                        }
                                    }
                                }
                            }
                        }
                    }
                } else {
                    if value < 667 {
                        if value < 645 {
                            if value < 637 {
                                if value < 633 {
                                    if value < 631 {
                                        if value < 630 {
                                            if value == 629 {
                                                Some(Keycode::KEY_FASTREVERSE)
                                            } else {
                                                None
                                            }
                                        } else {
                                            if value == 630 {
                                                Some(Keycode::KEY_SLOWREVERSE)
                                            } else {
                                                None
                                            }
                                        }
                                    } else {
                                        if value < 632 {
                                            if value == 631 {
                                                Some(Keycode::KEY_DATA)
                                            } else {
                                                None
                                            }
                                        } else {
                                            if value == 632 {
                                                Some(Keycode::KEY_ONSCREEN_KEYBOARD)
                                            } else {
                                                None
                                            }
                                        }
                                    }
                                } else {
                                    if value < 635 {
                                        if value < 634 {
                                            if value == 633 {
                                                Some(Keycode::KEY_PRIVACY_SCREEN_TOGGLE)
                                            } else {
                                                None
                                            }
                                        } else {
                                            if value == 634 {
                                                Some(Keycode::KEY_SELECTIVE_SCREENSHOT)
                                            } else {
                                                None
                                            }
                                        }
                                    } else {
                                        if value < 636 {
                                            if value == 635 {
                                                Some(Keycode::KEY_NEXT_ELEMENT)
                                            } else {
                                                None
                                            }
                                        } else {
                                            if value == 636 {
                                                Some(Keycode::KEY_PREVIOUS_ELEMENT)
                                            } else {
                                                None
                                            }
                                        }
                                    }
                                }
                            } else {
                                if value < 641 {
                                    if value < 639 {
                                        if value < 638 {
                                            if value == 637 {
                                                Some(Keycode::KEY_AUTOPILOT_ENGAGE_TOGGLE)
                                            } else {
                                                None
                                            }
                                        } else {
                                            if value == 638 {
                                                Some(Keycode::KEY_MARK_WAYPOINT)
                                            } else {
                                                None
                                            }
                                        }
                                    } else {
                                        if value < 640 {
                                            if value == 639 {
                                                Some(Keycode::KEY_SOS)
                                            } else {
                                                None
                                            }
                                        } else {
                                            if value == 640 {
                                                Some(Keycode::KEY_NAV_CHART)
                                            } else {
                                                None
                                            }
                                        }
                                    }
                                } else {
                                    if value < 643 {
                                        if value < 642 {
                                            if value == 641 {
                                                Some(Keycode::KEY_FISHING_CHART)
                                            } else {
                                                None
                                            }
                                        } else {
                                            if value == 642 {
                                                Some(Keycode::KEY_SINGLE_RANGE_RADAR)
                                            } else {
                                                None
                                            }
                                        }
                                    } else {
                                        if value < 644 {
                                            if value == 643 {
                                                Some(Keycode::KEY_DUAL_RANGE_RADAR)
                                            } else {
                                                None
                                            }
                                        } else {
                                            if value == 644 {
                                                Some(Keycode::KEY_RADAR_OVERLAY)
                                            } else {
                                                None
                                            }
                                        }
                                    }
                                }
                            }
                        } else {
                            if value < 659 {
                                if value < 649 {
                                    if value < 647 {
                                        if value < 646 {
                                            if value == 645 {
                                                Some(Keycode::KEY_TRADITIONAL_SONAR)
                                            } else {
                                                None
                                            }
                                        } else {
                                            if value == 646 {
                                                Some(Keycode::KEY_CLEARVU_SONAR)
                                            } else {
                                                None
                                            }
                                        }
                                    } else {
                                        if value < 648 {
                                            if value == 647 {
                                                Some(Keycode::KEY_SIDEVU_SONAR)
                                            } else {
                                                None
                                            }
                                        } else {
                                            if value == 648 {
                                                Some(Keycode::KEY_NAV_INFO)
                                            } else {
                                                None
                                            }
                                        }
                                    }
                                } else {
                                    if value < 657 {
                                        if value < 656 {
                                            if value == 649 {
                                                Some(Keycode::KEY_BRIGHTNESS_MENU)
                                            } else {
                                                None
                                            }
                                        } else {
                                            if value == 656 {
                                                Some(Keycode::KEY_MACRO1)
                                            } else {
                                                None
                                            }
                                        }
                                    } else {
                                        if value < 658 {
                                            if value == 657 {
                                                Some(Keycode::KEY_MACRO2)
                                            } else {
                                                None
                                            }
                                        } else {
                                            if value == 658 {
                                                Some(Keycode::KEY_MACRO3)
                                            } else {
                                                None
                                            }
                                        }
                                    }
                                }
                            } else {
                                if value < 663 {
                                    if value < 661 {
                                        if value < 660 {
                                            if value == 659 {
                                                Some(Keycode::KEY_MACRO4)
                                            } else {
                                                None
                                            }
                                        } else {
                                            if value == 660 {
                                                Some(Keycode::KEY_MACRO5)
                                            } else {
                                                None
                                            }
                                        }
                                    } else {
                                        if value < 662 {
                                            if value == 661 {
                                                Some(Keycode::KEY_MACRO6)
                                            } else {
                                                None
                                            }
                                        } else {
                                            if value == 662 {
                                                Some(Keycode::KEY_MACRO7)
                                            } else {
                                                None
                                            }
                                        }
                                    }
                                } else {
                                    if value < 665 {
                                        if value < 664 {
                                            if value == 663 {
                                                Some(Keycode::KEY_MACRO8)
                                            } else {
                                                None
                                            }
                                        } else {
                                            if value == 664 {
                                                Some(Keycode::KEY_MACRO9)
                                            } else {
                                                None
                                            }
                                        }
                                    } else {
                                        if value < 666 {
                                            if value == 665 {
                                                Some(Keycode::KEY_MACRO10)
                                            } else {
                                                None
                                            }
                                        } else {
                                            if value == 666 {
                                                Some(Keycode::KEY_MACRO11)
                                            } else {
                                                None
                                            }
                                        }
                                    }
                                }
                            }
                        }
                    } else {
                        if value < 683 {
                            if value < 675 {
                                if value < 671 {
                                    if value < 669 {
                                        if value < 668 {
                                            if value == 667 {
                                                Some(Keycode::KEY_MACRO12)
                                            } else {
                                                None
                                            }
                                        } else {
                                            if value == 668 {
                                                Some(Keycode::KEY_MACRO13)
                                            } else {
                                                None
                                            }
                                        }
                                    } else {
                                        if value < 670 {
                                            if value == 669 {
                                                Some(Keycode::KEY_MACRO14)
                                            } else {
                                                None
                                            }
                                        } else {
                                            if value == 670 {
                                                Some(Keycode::KEY_MACRO15)
                                            } else {
                                                None
                                            }
                                        }
                                    }
                                } else {
                                    if value < 673 {
                                        if value < 672 {
                                            if value == 671 {
                                                Some(Keycode::KEY_MACRO16)
                                            } else {
                                                None
                                            }
                                        } else {
                                            if value == 672 {
                                                Some(Keycode::KEY_MACRO17)
                                            } else {
                                                None
                                            }
                                        }
                                    } else {
                                        if value < 674 {
                                            if value == 673 {
                                                Some(Keycode::KEY_MACRO18)
                                            } else {
                                                None
                                            }
                                        } else {
                                            if value == 674 {
                                                Some(Keycode::KEY_MACRO19)
                                            } else {
                                                None
                                            }
                                        }
                                    }
                                }
                            } else {
                                if value < 679 {
                                    if value < 677 {
                                        if value < 676 {
                                            if value == 675 {
                                                Some(Keycode::KEY_MACRO20)
                                            } else {
                                                None
                                            }
                                        } else {
                                            if value == 676 {
                                                Some(Keycode::KEY_MACRO21)
                                            } else {
                                                None
                                            }
                                        }
                                    } else {
                                        if value < 678 {
                                            if value == 677 {
                                                Some(Keycode::KEY_MACRO22)
                                            } else {
                                                None
                                            }
                                        } else {
                                            if value == 678 {
                                                Some(Keycode::KEY_MACRO23)
                                            } else {
                                                None
                                            }
                                        }
                                    }
                                } else {
                                    if value < 681 {
                                        if value < 680 {
                                            if value == 679 {
                                                Some(Keycode::KEY_MACRO24)
                                            } else {
                                                None
                                            }
                                        } else {
                                            if value == 680 {
                                                Some(Keycode::KEY_MACRO25)
                                            } else {
                                                None
                                            }
                                        }
                                    } else {
                                        if value < 682 {
                                            if value == 681 {
                                                Some(Keycode::KEY_MACRO26)
                                            } else {
                                                None
                                            }
                                        } else {
                                            if value == 682 {
                                                Some(Keycode::KEY_MACRO27)
                                            } else {
                                                None
                                            }
                                        }
                                    }
                                }
                            }
                        } else {
                            if value < 693 {
                                if value < 689 {
                                    if value < 685 {
                                        if value < 684 {
                                            if value == 683 {
                                                Some(Keycode::KEY_MACRO28)
                                            } else {
                                                None
                                            }
                                        } else {
                                            if value == 684 {
                                                Some(Keycode::KEY_MACRO29)
                                            } else {
                                                None
                                            }
                                        }
                                    } else {
                                        if value < 688 {
                                            if value == 685 {
                                                Some(Keycode::KEY_MACRO30)
                                            } else {
                                                None
                                            }
                                        } else {
                                            if value == 688 {
                                                Some(Keycode::KEY_MACRO_RECORD_START)
                                            } else {
                                                None
                                            }
                                        }
                                    }
                                } else {
                                    if value < 691 {
                                        if value < 690 {
                                            if value == 689 {
                                                Some(Keycode::KEY_MACRO_RECORD_STOP)
                                            } else {
                                                None
                                            }
                                        } else {
                                            if value == 690 {
                                                Some(Keycode::KEY_MACRO_PRESET_CYCLE)
                                            } else {
                                                None
                                            }
                                        }
                                    } else {
                                        if value < 692 {
                                            if value == 691 {
                                                Some(Keycode::KEY_MACRO_PRESET1)
                                            } else {
                                                None
                                            }
                                        } else {
                                            if value == 692 {
                                                Some(Keycode::KEY_MACRO_PRESET2)
                                            } else {
                                                None
                                            }
                                        }
                                    }
                                }
                            } else {
                                if value < 699 {
                                    if value < 697 {
                                        if value < 696 {
                                            if value == 693 {
                                                Some(Keycode::KEY_MACRO_PRESET3)
                                            } else {
                                                None
                                            }
                                        } else {
                                            if value == 696 {
                                                Some(Keycode::KEY_KBD_LCD_MENU1)
                                            } else {
                                                None
                                            }
                                        }
                                    } else {
                                        if value < 698 {
                                            if value == 697 {
                                                Some(Keycode::KEY_KBD_LCD_MENU2)
                                            } else {
                                                None
                                            }
                                        } else {
                                            if value == 698 {
                                                Some(Keycode::KEY_KBD_LCD_MENU3)
                                            } else {
                                                None
                                            }
                                        }
                                    }
                                } else {
                                    if value < 767 {
                                        if value < 700 {
                                            if value == 699 {
                                                Some(Keycode::KEY_KBD_LCD_MENU4)
                                            } else {
                                                None
                                            }
                                        } else {
                                            if value == 700 {
                                                Some(Keycode::KEY_KBD_LCD_MENU5)
                                            } else {
                                                None
                                            }
                                        }
                                    } else {
                                        if value < 768 {
                                            if value == 767 {
                                                Some(Keycode::KEY_MAX)
                                            } else {
                                                None
                                            }
                                        } else {
                                            if value == 768 {
                                                Some(Keycode::KEY_CNT)
                                            } else {
                                                None
                                            }
                                        }
                                    }
                                }
                            }
                        }
                    }
                }
            }
        }
    }

    /// The name of the key code, as it is written in the kernel header.
    pub open spec fn spec_name(self) -> Seq<char> {
        match self {
            Keycode::KEY_RESERVED => "KEY_RESERVED"@,
            Keycode::KEY_ESC => "KEY_ESC"@,
            Keycode::KEY_1 => "KEY_1"@,
            Keycode::KEY_2 => "KEY_2"@,
            Keycode::KEY_3 => "KEY_3"@,
            Keycode::KEY_4 => "KEY_4"@,
            Keycode::KEY_5 => "KEY_5"@,
            Keycode::KEY_6 => "KEY_6"@,
            Keycode::KEY_7 => "KEY_7"@,
            Keycode::KEY_8 => "KEY_8"@,
            Keycode::KEY_9 => "KEY_9"@,
            Keycode::KEY_0 => "KEY_0"@,
            Keycode::KEY_MINUS => "KEY_MINUS"@,
            Keycode::KEY_EQUAL => "KEY_EQUAL"@,
            Keycode::KEY_BACKSPACE => "KEY_BACKSPACE"@,
            Keycode::KEY_TAB => "KEY_TAB"@,
            Keycode::KEY_Q => "KEY_Q"@,
            Keycode::KEY_W => "KEY_W"@,
            Keycode::KEY_E => "KEY_E"@,
            Keycode::KEY_R => "KEY_R"@,
            Keycode::KEY_T => "KEY_T"@,
            Keycode::KEY_Y => "KEY_Y"@,
            Keycode::KEY_U => "KEY_U"@,
            Keycode::KEY_I => "KEY_I"@,
            Keycode::KEY_O => "KEY_O"@,
            Keycode::KEY_P => "KEY_P"@,
            Keycode::KEY_LEFTBRACE => "KEY_LEFTBRACE"@,
            Keycode::KEY_RIGHTBRACE => "KEY_RIGHTBRACE"@,
            Keycode::KEY_ENTER => "KEY_ENTER"@,
            Keycode::KEY_LEFTCTRL => "KEY_LEFTCTRL"@,
            Keycode::KEY_A => "KEY_A"@,
            Keycode::KEY_S => "KEY_S"@,
            Keycode::KEY_D => "KEY_D"@,
            Keycode::KEY_F => "KEY_F"@,
            Keycode::KEY_G => "KEY_G"@,
            Keycode::KEY_H => "KEY_H"@,
            Keycode::KEY_J => "KEY_J"@,
            Keycode::KEY_K => "KEY_K"@,
            Keycode::KEY_L => "KEY_L"@,
            Keycode::KEY_SEMICOLON => "KEY_SEMICOLON"@,
            Keycode::KEY_APOSTROPHE => "KEY_APOSTROPHE"@,
            Keycode::KEY_GRAVE => "KEY_GRAVE"@,
            Keycode::KEY_LEFTSHIFT => "KEY_LEFTSHIFT"@,
            Keycode::KEY_BACKSLASH => "KEY_BACKSLASH"@,
            Keycode::KEY_Z => "KEY_Z"@,
            Keycode::KEY_X => "KEY_X"@,
            Keycode::KEY_C => "KEY_C"@,
            Keycode::KEY_V => "KEY_V"@,
            Keycode::KEY_B => "KEY_B"@,
            Keycode::KEY_N => "KEY_N"@,
            Keycode::KEY_M => "KEY_M"@,
            Keycode::KEY_COMMA => "KEY_COMMA"@,
            Keycode::KEY_DOT => "KEY_DOT"@,
            Keycode::KEY_SLASH => "KEY_SLASH"@,
            Keycode::KEY_RIGHTSHIFT => "KEY_RIGHTSHIFT"@,
            Keycode::KEY_KPASTERISK => "KEY_KPASTERISK"@,
            Keycode::KEY_LEFTALT => "KEY_LEFTALT"@,
            Keycode::KEY_SPACE => "KEY_SPACE"@,
            Keycode::KEY_CAPSLOCK => "KEY_CAPSLOCK"@,
            Keycode::KEY_F1 => "KEY_F1"@,
            Keycode::KEY_F2 => "KEY_F2"@,
            Keycode::KEY_F3 => "KEY_F3"@,
            Keycode::KEY_F4 => "KEY_F4"@,
            Keycode::KEY_F5 => "KEY_F5"@,
            Keycode::KEY_F6 => "KEY_F6"@,
            Keycode::KEY_F7 => "KEY_F7"@,
            Keycode::KEY_F8 => "KEY_F8"@,
            Keycode::KEY_F9 => "KEY_F9"@,
            Keycode::KEY_F10 => "KEY_F10"@,
            Keycode::KEY_NUMLOCK => "KEY_NUMLOCK"@,
            Keycode::KEY_SCROLLLOCK => "KEY_SCROLLLOCK"@,
            Keycode::KEY_KP7 => "KEY_KP7"@,
            Keycode::KEY_KP8 => "KEY_KP8"@,
            Keycode::KEY_KP9 => "KEY_KP9"@,
            Keycode::KEY_KPMINUS => "KEY_KPMINUS"@,
            Keycode::KEY_KP4 => "KEY_KP4"@,
            Keycode::KEY_KP5 => "KEY_KP5"@,
            Keycode::KEY_KP6 => "KEY_KP6"@,
            Keycode::KEY_KPPLUS => "KEY_KPPLUS"@,
            Keycode::KEY_KP1 => "KEY_KP1"@,
            Keycode::KEY_KP2 => "KEY_KP2"@,
            Keycode::KEY_KP3 => "KEY_KP3"@,
            Keycode::KEY_KP0 => "KEY_KP0"@,
            Keycode::KEY_KPDOT => "KEY_KPDOT"@,
            Keycode::KEY_ZENKAKUHANKAKU => "KEY_ZENKAKUHANKAKU"@,
            Keycode::KEY_102ND => "KEY_102ND"@,
            Keycode::KEY_F11 => "KEY_F11"@,
            Keycode::KEY_F12 => "KEY_F12"@,
            Keycode::KEY_RO => "KEY_RO"@,
            Keycode::KEY_KATAKANA => "KEY_KATAKANA"@,
            Keycode::KEY_HIRAGANA => "KEY_HIRAGANA"@,
            Keycode::KEY_HENKAN => "KEY_HENKAN"@,
            Keycode::KEY_KATAKANAHIRAGANA => "KEY_KATAKANAHIRAGANA"@,
            Keycode::KEY_MUHENKAN => "KEY_MUHENKAN"@,
            Keycode::KEY_KPJPCOMMA => "KEY_KPJPCOMMA"@,
            Keycode::KEY_KPENTER => "KEY_KPENTER"@,
            Keycode::KEY_RIGHTCTRL => "KEY_RIGHTCTRL"@,
            Keycode::KEY_KPSLASH => "KEY_KPSLASH"@,
            Keycode::KEY_SYSRQ => "KEY_SYSRQ"@,
            Keycode::KEY_RIGHTALT => "KEY_RIGHTALT"@,
            Keycode::KEY_LINEFEED => "KEY_LINEFEED"@,
            Keycode::KEY_HOME => "KEY_HOME"@,
            Keycode::KEY_UP => "KEY_UP"@,
            Keycode::KEY_PAGEUP => "KEY_PAGEUP"@,
            Keycode::KEY_LEFT => "KEY_LEFT"@,
            Keycode::KEY_RIGHT => "KEY_RIGHT"@,
            Keycode::KEY_END => "KEY_END"@,
            Keycode::KEY_DOWN => "KEY_DOWN"@,
            Keycode::KEY_PAGEDOWN => "KEY_PAGEDOWN"@,
            Keycode::KEY_INSERT => "KEY_INSERT"@,
            Keycode::KEY_DELETE => "KEY_DELETE"@,
            Keycode::KEY_MACRO => "KEY_MACRO"@,
            Keycode::KEY_MUTE => "KEY_MUTE"@,
            Keycode::KEY_VOLUMEDOWN => "KEY_VOLUMEDOWN"@,
            Keycode::KEY_VOLUMEUP => "KEY_VOLUMEUP"@,
            Keycode::KEY_POWER => "KEY_POWER"@,
            Keycode::KEY_KPEQUAL => "KEY_KPEQUAL"@,
            Keycode::KEY_KPPLUSMINUS => "KEY_KPPLUSMINUS"@,
            Keycode::KEY_PAUSE => "KEY_PAUSE"@,
            Keycode::KEY_SCALE => "KEY_SCALE"@,
            Keycode::KEY_KPCOMMA => "KEY_KPCOMMA"@,
            Keycode::KEY_HANGEUL => "KEY_HANGEUL"@,
            Keycode::KEY_HANJA => "KEY_HANJA"@,
            Keycode::KEY_YEN => "KEY_YEN"@,
            Keycode::KEY_LEFTMETA => "KEY_LEFTMETA"@,
            Keycode::KEY_RIGHTMETA => "KEY_RIGHTMETA"@,
            Keycode::KEY_COMPOSE => "KEY_COMPOSE"@,
            Keycode::KEY_STOP => "KEY_STOP"@,
            Keycode::KEY_AGAIN => "KEY_AGAIN"@,
            Keycode::KEY_PROPS => "KEY_PROPS"@,
            Keycode::KEY_UNDO => "KEY_UNDO"@,
            Keycode::KEY_FRONT => "KEY_FRONT"@,
            Keycode::KEY_COPY => "KEY_COPY"@,
            Keycode::KEY_OPEN => "KEY_OPEN"@,
            Keycode::KEY_PASTE => "KEY_PASTE"@,
            Keycode::KEY_FIND => "KEY_FIND"@,
            Keycode::KEY_CUT => "KEY_CUT"@,
            Keycode::KEY_HELP => "KEY_HELP"@,
            Keycode::KEY_MENU => "KEY_MENU"@,
            Keycode::KEY_CALC => "KEY_CALC"@,
            Keycode::KEY_SETUP => "KEY_SETUP"@,
            Keycode::KEY_SLEEP => "KEY_SLEEP"@,
            Keycode::KEY_WAKEUP => "KEY_WAKEUP"@,
            Keycode::KEY_FILE => "KEY_FILE"@,
            Keycode::KEY_SENDFILE => "KEY_SENDFILE"@,
            Keycode::KEY_DELETEFILE => "KEY_DELETEFILE"@,
            Keycode::KEY_XFER => "KEY_XFER"@,
            Keycode::KEY_PROG1 => "KEY_PROG1"@,
            Keycode::KEY_PROG2 => "KEY_PROG2"@,
            Keycode::KEY_WWW => "KEY_WWW"@,
            Keycode::KEY_MSDOS => "KEY_MSDOS"@,
            Keycode::KEY_COFFEE => "KEY_COFFEE"@,
            Keycode::KEY_ROTATE_DISPLAY => "KEY_ROTATE_DISPLAY"@,
            Keycode::KEY_CYCLEWINDOWS => "KEY_CYCLEWINDOWS"@,
            Keycode::KEY_MAIL => "KEY_MAIL"@,
            Keycode::KEY_BOOKMARKS => "KEY_BOOKMARKS"@,
            Keycode::KEY_COMPUTER => "KEY_COMPUTER"@,
            Keycode::KEY_BACK => "KEY_BACK"@,
            Keycode::KEY_FORWARD => "KEY_FORWARD"@,
            Keycode::KEY_CLOSECD => "KEY_CLOSECD"@,
            Keycode::KEY_EJECTCD => "KEY_EJECTCD"@,
            Keycode::KEY_EJECTCLOSECD => "KEY_EJECTCLOSECD"@,
            Keycode::KEY_NEXTSONG => "KEY_NEXTSONG"@,
            Keycode::KEY_PLAYPAUSE => "KEY_PLAYPAUSE"@,
            Keycode::KEY_PREVIOUSSONG => "KEY_PREVIOUSSONG"@,
            Keycode::KEY_STOPCD => "KEY_STOPCD"@,
            Keycode::KEY_RECORD => "KEY_RECORD"@,
            Keycode::KEY_REWIND => "KEY_REWIND"@,
            Keycode::KEY_PHONE => "KEY_PHONE"@,
            Keycode::KEY_ISO => "KEY_ISO"@,
            Keycode::KEY_CONFIG => "KEY_CONFIG"@,
            Keycode::KEY_HOMEPAGE => "KEY_HOMEPAGE"@,
            Keycode::KEY_REFRESH => "KEY_REFRESH"@,
            Keycode::KEY_EXIT => "KEY_EXIT"@,
            Keycode::KEY_MOVE => "KEY_MOVE"@,
            Keycode::KEY_EDIT => "KEY_EDIT"@,
            Keycode::KEY_SCROLLUP => "KEY_SCROLLUP"@,
            Keycode::KEY_SCROLLDOWN => "KEY_SCROLLDOWN"@,
            Keycode::KEY_KPLEFTPAREN => "KEY_KPLEFTPAREN"@,
            Keycode::KEY_KPRIGHTPAREN => "KEY_KPRIGHTPAREN"@,
            Keycode::KEY_NEW => "KEY_NEW"@,
            Keycode::KEY_REDO => "KEY_REDO"@,
            Keycode::KEY_F13 => "KEY_F13"@,
            Keycode::KEY_F14 => "KEY_F14"@,
            Keycode::KEY_F15 => "KEY_F15"@,
            Keycode::KEY_F16 => "KEY_F16"@,
            Keycode::KEY_F17 => "KEY_F17"@,
            Keycode::KEY_F18 => "KEY_F18"@,
            Keycode::KEY_F19 => "KEY_F19"@,
            Keycode::KEY_F20 => "KEY_F20"@,
            Keycode::KEY_F21 => "KEY_F21"@,
            Keycode::KEY_F22 => "KEY_F22"@,
            Keycode::KEY_F23 => "KEY_F23"@,
            Keycode::KEY_F24 => "KEY_F24"@,
            Keycode::KEY_PLAYCD => "KEY_PLAYCD"@,
            Keycode::KEY_PAUSECD => "KEY_PAUSECD"@,
            Keycode::KEY_PROG3 => "KEY_PROG3"@,
            Keycode::KEY_PROG4 => "KEY_PROG4"@,
            Keycode::KEY_ALL_APPLICATIONS => "KEY_ALL_APPLICATIONS"@,
            Keycode::KEY_SUSPEND => "KEY_SUSPEND"@,
            Keycode::KEY_CLOSE => "KEY_CLOSE"@,
            Keycode::KEY_PLAY => "KEY_PLAY"@,
            Keycode::KEY_FASTFORWARD => "KEY_FASTFORWARD"@,
            Keycode::KEY_BASSBOOST => "KEY_BASSBOOST"@,
            Keycode::KEY_PRINT => "KEY_PRINT"@,
            Keycode::KEY_HP => "KEY_HP"@,
            Keycode::KEY_CAMERA => "KEY_CAMERA"@,
            Keycode::KEY_SOUND => "KEY_SOUND"@,
            Keycode::KEY_QUESTION => "KEY_QUESTION"@,
            Keycode::KEY_EMAIL => "KEY_EMAIL"@,
            Keycode::KEY_CHAT => "KEY_CHAT"@,
            Keycode::KEY_SEARCH => "KEY_SEARCH"@,
            Keycode::KEY_CONNECT => "KEY_CONNECT"@,
            Keycode::KEY_FINANCE => "KEY_FINANCE"@,
            Keycode::KEY_SPORT => "KEY_SPORT"@,
            Keycode::KEY_SHOP => "KEY_SHOP"@,
            Keycode::KEY_ALTERASE => "KEY_ALTERASE"@,
            Keycode::KEY_CANCEL => "KEY_CANCEL"@,
            Keycode::KEY_BRIGHTNESSDOWN => "KEY_BRIGHTNESSDOWN"@,
            Keycode::KEY_BRIGHTNESSUP => "KEY_BRIGHTNESSUP"@,
            Keycode::KEY_MEDIA => "KEY_MEDIA"@,
            Keycode::KEY_SWITCHVIDEOMODE => "KEY_SWITCHVIDEOMODE"@,
            Keycode::KEY_KBDILLUMTOGGLE => "KEY_KBDILLUMTOGGLE"@,
            Keycode::KEY_KBDILLUMDOWN => "KEY_KBDILLUMDOWN"@,
            Keycode::KEY_KBDILLUMUP => "KEY_KBDILLUMUP"@,
            Keycode::KEY_SEND => "KEY_SEND"@,
            Keycode::KEY_REPLY => "KEY_REPLY"@,
            Keycode::KEY_FORWARDMAIL => "KEY_FORWARDMAIL"@,
            Keycode::KEY_SAVE => "KEY_SAVE"@,
            Keycode::KEY_DOCUMENTS => "KEY_DOCUMENTS"@,
            Keycode::KEY_BATTERY => "KEY_BATTERY"@,
            Keycode::KEY_BLUETOOTH => "KEY_BLUETOOTH"@,
            Keycode::KEY_WLAN => "KEY_WLAN"@,
            Keycode::KEY_UWB => "KEY_UWB"@,
            Keycode::KEY_UNKNOWN => "KEY_UNKNOWN"@,
            Keycode::KEY_VIDEO_NEXT => "KEY_VIDEO_NEXT"@,
            Keycode::KEY_VIDEO_PREV => "KEY_VIDEO_PREV"@,
            Keycode::KEY_BRIGHTNESS_CYCLE => "KEY_BRIGHTNESS_CYCLE"@,
            Keycode::KEY_BRIGHTNESS_AUTO => "KEY_BRIGHTNESS_AUTO"@,
            Keycode::KEY_DISPLAY_OFF => "KEY_DISPLAY_OFF"@,
            Keycode::KEY_WWAN => "KEY_WWAN"@,
            Keycode::KEY_RFKILL => "KEY_RFKILL"@,
            Keycode::KEY_MICMUTE => "KEY_MICMUTE"@,
            Keycode::KEY_OK => "KEY_OK"@,
            Keycode::KEY_SELECT => "KEY_SELECT"@,
            Keycode::KEY_GOTO => "KEY_GOTO"@,
            Keycode::KEY_CLEAR => "KEY_CLEAR"@,
            Keycode::KEY_POWER2 => "KEY_POWER2"@,
            Keycode::KEY_OPTION => "KEY_OPTION"@,
            Keycode::KEY_INFO => "KEY_INFO"@,
            Keycode::KEY_TIME => "KEY_TIME"@,
            Keycode::KEY_VENDOR => "KEY_VENDOR"@,
            Keycode::KEY_ARCHIVE => "KEY_ARCHIVE"@,
            Keycode::KEY_PROGRAM => "KEY_PROGRAM"@,
            Keycode::KEY_CHANNEL => "KEY_CHANNEL"@,
            Keycode::KEY_FAVORITES => "KEY_FAVORITES"@,
            Keycode::KEY_EPG => "KEY_EPG"@,
            Keycode::KEY_PVR => "KEY_PVR"@,
            Keycode::KEY_MHP => "KEY_MHP"@,
            Keycode::KEY_LANGUAGE => "KEY_LANGUAGE"@,
            Keycode::KEY_TITLE => "KEY_TITLE"@,
            Keycode::KEY_SUBTITLE => "KEY_SUBTITLE"@,
            Keycode::KEY_ANGLE => "KEY_ANGLE"@,
            Keycode::KEY_FULL_SCREEN => "KEY_FULL_SCREEN"@,
            Keycode::KEY_MODE => "KEY_MODE"@,
            Keycode::KEY_KEYBOARD => "KEY_KEYBOARD"@,
            Keycode::KEY_ASPECT_RATIO => "KEY_ASPECT_RATIO"@,
            Keycode::KEY_PC => "KEY_PC"@,
            Keycode::KEY_TV => "KEY_TV"@,
            Keycode::KEY_TV2 => "KEY_TV2"@,
            Keycode::KEY_VCR => "KEY_VCR"@,
            Keycode::KEY_VCR2 => "KEY_VCR2"@,
            Keycode::KEY_SAT => "KEY_SAT"@,
            Keycode::KEY_SAT2 => "KEY_SAT2"@,
            Keycode::KEY_CD => "KEY_CD"@,
            Keycode::KEY_TAPE => "KEY_TAPE"@,
            Keycode::KEY_RADIO => "KEY_RADIO"@,
            Keycode::KEY_TUNER => "KEY_TUNER"@,
            Keycode::KEY_PLAYER => "KEY_PLAYER"@,
            Keycode::KEY_TEXT => "KEY_TEXT"@,
            Keycode::KEY_DVD => "KEY_DVD"@,
            Keycode::KEY_AUX => "KEY_AUX"@,
            Keycode::KEY_MP3 => "KEY_MP3"@,
            Keycode::KEY_AUDIO => "KEY_AUDIO"@,
            Keycode::KEY_VIDEO => "KEY_VIDEO"@,
            Keycode::KEY_DIRECTORY => "KEY_DIRECTORY"@,
            Keycode::KEY_LIST => "KEY_LIST"@,
            Keycode::KEY_MEMO => "KEY_MEMO"@,
            Keycode::KEY_CALENDAR => "KEY_CALENDAR"@,
            Keycode::KEY_RED => "KEY_RED"@,
            Keycode::KEY_GREEN => "KEY_GREEN"@,
            Keycode::KEY_YELLOW => "KEY_YELLOW"@,
            Keycode::KEY_BLUE => "KEY_BLUE"@,
            Keycode::KEY_CHANNELUP => "KEY_CHANNELUP"@,
            Keycode::KEY_CHANNELDOWN => "KEY_CHANNELDOWN"@,
            Keycode::KEY_FIRST => "KEY_FIRST"@,
            Keycode::KEY_LAST => "KEY_LAST"@,
            Keycode::KEY_AB => "KEY_AB"@,
            Keycode::KEY_NEXT => "KEY_NEXT"@,
            Keycode::KEY_RESTART => "KEY_RESTART"@,
            Keycode::KEY_SLOW => "KEY_SLOW"@,
            Keycode::KEY_SHUFFLE => "KEY_SHUFFLE"@,
            Keycode::KEY_BREAK => "KEY_BREAK"@,
            Keycode::KEY_PREVIOUS => "KEY_PREVIOUS"@,
            Keycode::KEY_DIGITS => "KEY_DIGITS"@,
            Keycode::KEY_TEEN => "KEY_TEEN"@,
            Keycode::KEY_TWEN => "KEY_TWEN"@,
            Keycode::KEY_VIDEOPHONE => "KEY_VIDEOPHONE"@,
            Keycode::KEY_GAMES => "KEY_GAMES"@,
            Keycode::KEY_ZOOMIN => "KEY_ZOOMIN"@,
            Keycode::KEY_ZOOMOUT => "KEY_ZOOMOUT"@,
            Keycode::KEY_ZOOMRESET => "KEY_ZOOMRESET"@,
            Keycode::KEY_WORDPROCESSOR => "KEY_WORDPROCESSOR"@,
            Keycode::KEY_EDITOR => "KEY_EDITOR"@,
            Keycode::KEY_SPREADSHEET => "KEY_SPREADSHEET"@,
            Keycode::KEY_GRAPHICSEDITOR => "KEY_GRAPHICSEDITOR"@,
            Keycode::KEY_PRESENTATION => "KEY_PRESENTATION"@,
            Keycode::KEY_DATABASE => "KEY_DATABASE"@,
            Keycode::KEY_NEWS => "KEY_NEWS"@,
            Keycode::KEY_VOICEMAIL => "KEY_VOICEMAIL"@,
            Keycode::KEY_ADDRESSBOOK => "KEY_ADDRESSBOOK"@,
            Keycode::KEY_MESSENGER => "KEY_MESSENGER"@,
            Keycode::KEY_DISPLAYTOGGLE => "KEY_DISPLAYTOGGLE"@,
            Keycode::KEY_SPELLCHECK => "KEY_SPELLCHECK"@,
            Keycode::KEY_LOGOFF => "KEY_LOGOFF"@,
            Keycode::KEY_DOLLAR => "KEY_DOLLAR"@,
            Keycode::KEY_EURO => "KEY_EURO"@,
            Keycode::KEY_FRAMEBACK => "KEY_FRAMEBACK"@,
            Keycode::KEY_FRAMEFORWARD => "KEY_FRAMEFORWARD"@,
            Keycode::KEY_CONTEXT_MENU => "KEY_CONTEXT_MENU"@,
            Keycode::KEY_MEDIA_REPEAT => "KEY_MEDIA_REPEAT"@,
            Keycode::KEY_10CHANNELSUP => "KEY_10CHANNELSUP"@,
            Keycode::KEY_10CHANNELSDOWN => "KEY_10CHANNELSDOWN"@,
            Keycode::KEY_IMAGES => "KEY_IMAGES"@,
            Keycode::KEY_NOTIFICATION_CENTER => "KEY_NOTIFICATION_CENTER"@,
            Keycode::KEY_PICKUP_PHONE => "KEY_PICKUP_PHONE"@,
            Keycode::KEY_HANGUP_PHONE => "KEY_HANGUP_PHONE"@,
            Keycode::KEY_LINK_PHONE => "KEY_LINK_PHONE"@,
            Keycode::KEY_DEL_EOL => "KEY_DEL_EOL"@,
            Keycode::KEY_DEL_EOS => "KEY_DEL_EOS"@,
            Keycode::KEY_INS_LINE => "KEY_INS_LINE"@,
            Keycode::KEY_DEL_LINE => "KEY_DEL_LINE"@,
            Keycode::KEY_FN => "KEY_FN"@,
            Keycode::KEY_FN_ESC => "KEY_FN_ESC"@,
            Keycode::KEY_FN_F1 => "KEY_FN_F1"@,
            Keycode::KEY_FN_F2 => "KEY_FN_F2"@,
            Keycode::KEY_FN_F3 => "KEY_FN_F3"@,
            Keycode::KEY_FN_F4 => "KEY_FN_F4"@,
            Keycode::KEY_FN_F5 => "KEY_FN_F5"@,
            Keycode::KEY_FN_F6 => "KEY_FN_F6"@,
            Keycode::KEY_FN_F7 => "KEY_FN_F7"@,
            Keycode::KEY_FN_F8 => "KEY_FN_F8"@,
            Keycode::KEY_FN_F9 => "KEY_FN_F9"@,
            Keycode::KEY_FN_F10 => "KEY_FN_F10"@,
            Keycode::KEY_FN_F11 => "KEY_FN_F11"@,
            Keycode::KEY_FN_F12 => "KEY_FN_F12"@,
            Keycode::KEY_FN_1 => "KEY_FN_1"@,
            Keycode::KEY_FN_2 => "KEY_FN_2"@,
            Keycode::KEY_FN_D => "KEY_FN_D"@,
            Keycode::KEY_FN_E => "KEY_FN_E"@,
            Keycode::KEY_FN_F => "KEY_FN_F"@,
            Keycode::KEY_FN_S => "KEY_FN_S"@,
            Keycode::KEY_FN_B => "KEY_FN_B"@,
            Keycode::KEY_FN_RIGHT_SHIFT => "KEY_FN_RIGHT_SHIFT"@,
            Keycode::KEY_BRL_DOT1 => "KEY_BRL_DOT1"@,
            Keycode::KEY_BRL_DOT2 => "KEY_BRL_DOT2"@,
            Keycode::KEY_BRL_DOT3 => "KEY_BRL_DOT3"@,
            Keycode::KEY_BRL_DOT4 => "KEY_BRL_DOT4"@,
            Keycode::KEY_BRL_DOT5 => "KEY_BRL_DOT5"@,
            Keycode::KEY_BRL_DOT6 => "KEY_BRL_DOT6"@,
            Keycode::KEY_BRL_DOT7 => "KEY_BRL_DOT7"@,
            Keycode::KEY_BRL_DOT8 => "KEY_BRL_DOT8"@,
            Keycode::KEY_BRL_DOT9 => "KEY_BRL_DOT9"@,
            Keycode::KEY_BRL_DOT10 => "KEY_BRL_DOT10"@,
            Keycode::KEY_NUMERIC_0 => "KEY_NUMERIC_0"@,
            Keycode::KEY_NUMERIC_1 => "KEY_NUMERIC_1"@,
            Keycode::KEY_NUMERIC_2 => "KEY_NUMERIC_2"@,
            Keycode::KEY_NUMERIC_3 => "KEY_NUMERIC_3"@,
            Keycode::KEY_NUMERIC_4 => "KEY_NUMERIC_4"@,
            Keycode::KEY_NUMERIC_5 => "KEY_NUMERIC_5"@,
            Keycode::KEY_NUMERIC_6 => "KEY_NUMERIC_6"@,
            Keycode::KEY_NUMERIC_7 => "KEY_NUMERIC_7"@,
            Keycode::KEY_NUMERIC_8 => "KEY_NUMERIC_8"@,
            Keycode::KEY_NUMERIC_9 => "KEY_NUMERIC_9"@,
            Keycode::KEY_NUMERIC_STAR => "KEY_NUMERIC_STAR"@,
            Keycode::KEY_NUMERIC_POUND => "KEY_NUMERIC_POUND"@,
            Keycode::KEY_NUMERIC_A => "KEY_NUMERIC_A"@,
            Keycode::KEY_NUMERIC_B => "KEY_NUMERIC_B"@,
            Keycode::KEY_NUMERIC_C => "KEY_NUMERIC_C"@,
            Keycode::KEY_NUMERIC_D => "KEY_NUMERIC_D"@,
            Keycode::KEY_CAMERA_FOCUS => "KEY_CAMERA_FOCUS"@,
            Keycode::KEY_WPS_BUTTON => "KEY_WPS_BUTTON"@,
            Keycode::KEY_TOUCHPAD_TOGGLE => "KEY_TOUCHPAD_TOGGLE"@,
            Keycode::KEY_TOUCHPAD_ON => "KEY_TOUCHPAD_ON"@,
            Keycode::KEY_TOUCHPAD_OFF => "KEY_TOUCHPAD_OFF"@,
            Keycode::KEY_CAMERA_ZOOMIN => "KEY_CAMERA_ZOOMIN"@,
            Keycode::KEY_CAMERA_ZOOMOUT => "KEY_CAMERA_ZOOMOUT"@,
            Keycode::KEY_CAMERA_UP => "KEY_CAMERA_UP"@,
            Keycode::KEY_CAMERA_DOWN => "KEY_CAMERA_DOWN"@,
            Keycode::KEY_CAMERA_LEFT => "KEY_CAMERA_LEFT"@,
            Keycode::KEY_CAMERA_RIGHT => "KEY_CAMERA_RIGHT"@,
            Keycode::KEY_ATTENDANT_ON => "KEY_ATTENDANT_ON"@,
            Keycode::KEY_ATTENDANT_OFF => "KEY_ATTENDANT_OFF"@,
            Keycode::KEY_ATTENDANT_TOGGLE => "KEY_ATTENDANT_TOGGLE"@,
            Keycode::KEY_LIGHTS_TOGGLE => "KEY_LIGHTS_TOGGLE"@,
            Keycode::KEY_ALS_TOGGLE => "KEY_ALS_TOGGLE"@,
            Keycode::KEY_ROTATE_LOCK_TOGGLE => "KEY_ROTATE_LOCK_TOGGLE"@,
            Keycode::KEY_REFRESH_RATE_TOGGLE => "KEY_REFRESH_RATE_TOGGLE"@,
            Keycode::KEY_BUTTONCONFIG => "KEY_BUTTONCONFIG"@,
            Keycode::KEY_TASKMANAGER => "KEY_TASKMANAGER"@,
            Keycode::KEY_JOURNAL => "KEY_JOURNAL"@,
            Keycode::KEY_CONTROLPANEL => "KEY_CONTROLPANEL"@,
            Keycode::KEY_APPSELECT => "KEY_APPSELECT"@,
            Keycode::KEY_SCREENSAVER => "KEY_SCREENSAVER"@,
            Keycode::KEY_VOICECOMMAND => "KEY_VOICECOMMAND"@,
            Keycode::KEY_ASSISTANT => "KEY_ASSISTANT"@,
            Keycode::KEY_KBD_LAYOUT_NEXT => "KEY_KBD_LAYOUT_NEXT"@,
            Keycode::KEY_EMOJI_PICKER => "KEY_EMOJI_PICKER"@,
            Keycode::KEY_DICTATE => "KEY_DICTATE"@,
            Keycode::KEY_BRIGHTNESS_MIN => "KEY_BRIGHTNESS_MIN"@,
            Keycode::KEY_BRIGHTNESS_MAX => "KEY_BRIGHTNESS_MAX"@,
            Keycode::KEY_KBDINPUTASSIST_PREV => "KEY_KBDINPUTASSIST_PREV"@,
            Keycode::KEY_KBDINPUTASSIST_NEXT => "KEY_KBDINPUTASSIST_NEXT"@,
            Keycode::KEY_KBDINPUTASSIST_PREVGROUP => "KEY_KBDINPUTASSIST_PREVGROUP"@,
            Keycode::KEY_KBDINPUTASSIST_NEXTGROUP => "KEY_KBDINPUTASSIST_NEXTGROUP"@,
            Keycode::KEY_KBDINPUTASSIST_ACCEPT => "KEY_KBDINPUTASSIST_ACCEPT"@,
            Keycode::KEY_KBDINPUTASSIST_CANCEL => "KEY_KBDINPUTASSIST_CANCEL"@,
            Keycode::KEY_RIGHT_UP => "KEY_RIGHT_UP"@,
            Keycode::KEY_RIGHT_DOWN => "KEY_RIGHT_DOWN"@,
            Keycode::KEY_LEFT_UP => "KEY_LEFT_UP"@,
            Keycode::KEY_LEFT_DOWN => "KEY_LEFT_DOWN"@,
            Keycode::KEY_ROOT_MENU => "KEY_ROOT_MENU"@,
            Keycode::KEY_MEDIA_TOP_MENU => "KEY_MEDIA_TOP_MENU"@,
            Keycode::KEY_NUMERIC_11 => "KEY_NUMERIC_11"@,
            Keycode::KEY_NUMERIC_12 => "KEY_NUMERIC_12"@,
            Keycode::KEY_AUDIO_DESC => "KEY_AUDIO_DESC"@,
            Keycode::KEY_3D_MODE => "KEY_3D_MODE"@,
            Keycode::KEY_NEXT_FAVORITE => "KEY_NEXT_FAVORITE"@,
            Keycode::KEY_STOP_RECORD => "KEY_STOP_RECORD"@,
            Keycode::KEY_PAUSE_RECORD => "KEY_PAUSE_RECORD"@,
            Keycode::KEY_VOD => "KEY_VOD"@,
            Keycode::KEY_UNMUTE => "KEY_UNMUTE"@,
            Keycode::KEY_FASTREVERSE => "KEY_FASTREVERSE"@,
            Keycode::KEY_SLOWREVERSE => "KEY_SLOWREVERSE"@,
            Keycode::KEY_DATA => "KEY_DATA"@,
            Keycode::KEY_ONSCREEN_KEYBOARD => "KEY_ONSCREEN_KEYBOARD"@,
            Keycode::KEY_PRIVACY_SCREEN_TOGGLE => "KEY_PRIVACY_SCREEN_TOGGLE"@,
            Keycode::KEY_SELECTIVE_SCREENSHOT => "KEY_SELECTIVE_SCREENSHOT"@,
            Keycode::KEY_NEXT_ELEMENT => "KEY_NEXT_ELEMENT"@,
            Keycode::KEY_PREVIOUS_ELEMENT => "KEY_PREVIOUS_ELEMENT"@,
            Keycode::KEY_AUTOPILOT_ENGAGE_TOGGLE => "KEY_AUTOPILOT_ENGAGE_TOGGLE"@,
            Keycode::KEY_MARK_WAYPOINT => "KEY_MARK_WAYPOINT"@,
            Keycode::KEY_SOS => "KEY_SOS"@,
            Keycode::KEY_NAV_CHART => "KEY_NAV_CHART"@,
            Keycode::KEY_FISHING_CHART => "KEY_FISHING_CHART"@,
            Keycode::KEY_SINGLE_RANGE_RADAR => "KEY_SINGLE_RANGE_RADAR"@,
            Keycode::KEY_DUAL_RANGE_RADAR => "KEY_DUAL_RANGE_RADAR"@,
            Keycode::KEY_RADAR_OVERLAY => "KEY_RADAR_OVERLAY"@,
            Keycode::KEY_TRADITIONAL_SONAR => "KEY_TRADITIONAL_SONAR"@,
            Keycode::KEY_CLEARVU_SONAR => "KEY_CLEARVU_SONAR"@,
            Keycode::KEY_SIDEVU_SONAR => "KEY_SIDEVU_SONAR"@,
            Keycode::KEY_NAV_INFO => "KEY_NAV_INFO"@,
            Keycode::KEY_BRIGHTNESS_MENU => "KEY_BRIGHTNESS_MENU"@,
            Keycode::KEY_MACRO1 => "KEY_MACRO1"@,
            Keycode::KEY_MACRO2 => "KEY_MACRO2"@,
            Keycode::KEY_MACRO3 => "KEY_MACRO3"@,
            Keycode::KEY_MACRO4 => "KEY_MACRO4"@,
            Keycode::KEY_MACRO5 => "KEY_MACRO5"@,
            Keycode::KEY_MACRO6 => "KEY_MACRO6"@,
            Keycode::KEY_MACRO7 => "KEY_MACRO7"@,
            Keycode::KEY_MACRO8 => "KEY_MACRO8"@,
            Keycode::KEY_MACRO9 => "KEY_MACRO9"@,
            Keycode::KEY_MACRO10 => "KEY_MACRO10"@,
            Keycode::KEY_MACRO11 => "KEY_MACRO11"@,
            Keycode::KEY_MACRO12 => "KEY_MACRO12"@,
            Keycode::KEY_MACRO13 => "KEY_MACRO13"@,
            Keycode::KEY_MACRO14 => "KEY_MACRO14"@,
            Keycode::KEY_MACRO15 => "KEY_MACRO15"@,
            Keycode::KEY_MACRO16 => "KEY_MACRO16"@,
            Keycode::KEY_MACRO17 => "KEY_MACRO17"@,
            Keycode::KEY_MACRO18 => "KEY_MACRO18"@,
            Keycode::KEY_MACRO19 => "KEY_MACRO19"@,
            Keycode::KEY_MACRO20 => "KEY_MACRO20"@,
            Keycode::KEY_MACRO21 => "KEY_MACRO21"@,
            Keycode::KEY_MACRO22 => "KEY_MACRO22"@,
            Keycode::KEY_MACRO23 => "KEY_MACRO23"@,
            Keycode::KEY_MACRO24 => "KEY_MACRO24"@,
            Keycode::KEY_MACRO25 => "KEY_MACRO25"@,
            Keycode::KEY_MACRO26 => "KEY_MACRO26"@,
            Keycode::KEY_MACRO27 => "KEY_MACRO27"@,
            Keycode::KEY_MACRO28 => "KEY_MACRO28"@,
            Keycode::KEY_MACRO29 => "KEY_MACRO29"@,
            Keycode::KEY_MACRO30 => "KEY_MACRO30"@,
            Keycode::KEY_MACRO_RECORD_START => "KEY_MACRO_RECORD_START"@,
            Keycode::KEY_MACRO_RECORD_STOP => "KEY_MACRO_RECORD_STOP"@,
            Keycode::KEY_MACRO_PRESET_CYCLE => "KEY_MACRO_PRESET_CYCLE"@,
            Keycode::KEY_MACRO_PRESET1 => "KEY_MACRO_PRESET1"@,
            Keycode::KEY_MACRO_PRESET2 => "KEY_MACRO_PRESET2"@,
            Keycode::KEY_MACRO_PRESET3 => "KEY_MACRO_PRESET3"@,
            Keycode::KEY_KBD_LCD_MENU1 => "KEY_KBD_LCD_MENU1"@,
            Keycode::KEY_KBD_LCD_MENU2 => "KEY_KBD_LCD_MENU2"@,
            Keycode::KEY_KBD_LCD_MENU3 => "KEY_KBD_LCD_MENU3"@,
            Keycode::KEY_KBD_LCD_MENU4 => "KEY_KBD_LCD_MENU4"@,
            Keycode::KEY_KBD_LCD_MENU5 => "KEY_KBD_LCD_MENU5"@,
            Keycode::KEY_MAX => "KEY_MAX"@,
            Keycode::KEY_CNT => "KEY_CNT"@,
        }
    }

    /// The numeric value of the key code.
    pub fn code(&self) -> (c: u16)
        ensures
            c == self.spec_code(),
            kernel_key_name(c) == self.spec_name(),
    {
        proof {
            lemma_name_is_kernel_name(*self);
        }
        match self {
            Keycode::KEY_RESERVED => 0,
            Keycode::KEY_ESC => 1,
            Keycode::KEY_1 => 2,
            Keycode::KEY_2 => 3,
            Keycode::KEY_3 => 4,
            Keycode::KEY_4 => 5,
            Keycode::KEY_5 => 6,
            Keycode::KEY_6 => 7,
            Keycode::KEY_7 => 8,
            Keycode::KEY_8 => 9,
            Keycode::KEY_9 => 10,
            Keycode::KEY_0 => 11,
            Keycode::KEY_MINUS => 12,
            Keycode::KEY_EQUAL => 13,
            Keycode::KEY_BACKSPACE => 14,
            Keycode::KEY_TAB => 15,
            Keycode::KEY_Q => 16,
            Keycode::KEY_W => 17,
            Keycode::KEY_E => 18,
            Keycode::KEY_R => 19,
            Keycode::KEY_T => 20,
            Keycode::KEY_Y => 21,
            Keycode::KEY_U => 22,
            Keycode::KEY_I => 23,
            Keycode::KEY_O => 24,
            Keycode::KEY_P => 25,
            Keycode::KEY_LEFTBRACE => 26,
            Keycode::KEY_RIGHTBRACE => 27,
            Keycode::KEY_ENTER => 28,
            Keycode::KEY_LEFTCTRL => 29,
            Keycode::KEY_A => 30,
            Keycode::KEY_S => 31,
            Keycode::KEY_D => 32,
            Keycode::KEY_F => 33,
            Keycode::KEY_G => 34,
            Keycode::KEY_H => 35,
            Keycode::KEY_J => 36,
            Keycode::KEY_K => 37,
            Keycode::KEY_L => 38,
            Keycode::KEY_SEMICOLON => 39,
            Keycode::KEY_APOSTROPHE => 40,
            Keycode::KEY_GRAVE => 41,
            Keycode::KEY_LEFTSHIFT => 42,
            Keycode::KEY_BACKSLASH => 43,
            Keycode::KEY_Z => 44,
            Keycode::KEY_X => 45,
            Keycode::KEY_C => 46,
            Keycode::KEY_V => 47,
            Keycode::KEY_B => 48,
            Keycode::KEY_N => 49,
            Keycode::KEY_M => 50,
            Keycode::KEY_COMMA => 51,
            Keycode::KEY_DOT => 52,
            Keycode::KEY_SLASH => 53,
            Keycode::KEY_RIGHTSHIFT => 54,
            Keycode::KEY_KPASTERISK => 55,
            Keycode::KEY_LEFTALT => 56,
            Keycode::KEY_SPACE => 57,
            Keycode::KEY_CAPSLOCK => 58,
            Keycode::KEY_F1 => 59,
            Keycode::KEY_F2 => 60,
            Keycode::KEY_F3 => 61,
            Keycode::KEY_F4 => 62,
            Keycode::KEY_F5 => 63,
            Keycode::KEY_F6 => 64,
            Keycode::KEY_F7 => 65,
            Keycode::KEY_F8 => 66,
            Keycode::KEY_F9 => 67,
            Keycode::KEY_F10 => 68,
            Keycode::KEY_NUMLOCK => 69,
            Keycode::KEY_SCROLLLOCK => 70,
            Keycode::KEY_KP7 => 71,
            Keycode::KEY_KP8 => 72,
            Keycode::KEY_KP9 => 73,
            Keycode::KEY_KPMINUS => 74,
            Keycode::KEY_KP4 => 75,
            Keycode::KEY_KP5 => 76,
            Keycode::KEY_KP6 => 77,
            Keycode::KEY_KPPLUS => 78,
            Keycode::KEY_KP1 => 79,
            Keycode::KEY_KP2 => 80,
            Keycode::KEY_KP3 => 81,
            Keycode::KEY_KP0 => 82,
            Keycode::KEY_KPDOT => 83,
            Keycode::KEY_ZENKAKUHANKAKU => 85,
            Keycode::KEY_102ND => 86,
            Keycode::KEY_F11 => 87,
            Keycode::KEY_F12 => 88,
            Keycode::KEY_RO => 89,
            Keycode::KEY_KATAKANA => 90,
            Keycode::KEY_HIRAGANA => 91,
            Keycode::KEY_HENKAN => 92,
            Keycode::KEY_KATAKANAHIRAGANA => 93,
            Keycode::KEY_MUHENKAN => 94,
            Keycode::KEY_KPJPCOMMA => 95,
            Keycode::KEY_KPENTER => 96,
            Keycode::KEY_RIGHTCTRL => 97,
            Keycode::KEY_KPSLASH => 98,
            Keycode::KEY_SYSRQ => 99,
            Keycode::KEY_RIGHTALT => 100,
            Keycode::KEY_LINEFEED => 101,
            Keycode::KEY_HOME => 102,
            Keycode::KEY_UP => 103,
            Keycode::KEY_PAGEUP => 104,
            Keycode::KEY_LEFT => 105,
            Keycode::KEY_RIGHT => 106,
            Keycode::KEY_END => 107,
            Keycode::KEY_DOWN => 108,
            Keycode::KEY_PAGEDOWN => 109,
            Keycode::KEY_INSERT => 110,
            Keycode::KEY_DELETE => 111,
            Keycode::KEY_MACRO => 112,
            Keycode::KEY_MUTE => 113,
            Keycode::KEY_VOLUMEDOWN => 114,
            Keycode::KEY_VOLUMEUP => 115,
            Keycode::KEY_POWER => 116,
            Keycode::KEY_KPEQUAL => 117,
            Keycode::KEY_KPPLUSMINUS => 118,
            Keycode::KEY_PAUSE => 119,
            Keycode::KEY_SCALE => 120,
            Keycode::KEY_KPCOMMA => 121,
            Keycode::KEY_HANGEUL => 122,
            Keycode::KEY_HANJA => 123,
            Keycode::KEY_YEN => 124,
            Keycode::KEY_LEFTMETA => 125,
            Keycode::KEY_RIGHTMETA => 126,
            Keycode::KEY_COMPOSE => 127,
            Keycode::KEY_STOP => 128,
            Keycode::KEY_AGAIN => 129,
            Keycode::KEY_PROPS => 130,
            Keycode::KEY_UNDO => 131,
            Keycode::KEY_FRONT => 132,
            Keycode::KEY_COPY => 133,
            Keycode::KEY_OPEN => 134,
            Keycode::KEY_PASTE => 135,
            Keycode::KEY_FIND => 136,
            Keycode::KEY_CUT => 137,
            Keycode::KEY_HELP => 138,
            Keycode::KEY_MENU => 139,
            Keycode::KEY_CALC => 140,
            Keycode::KEY_SETUP => 141,
            Keycode::KEY_SLEEP => 142,
            Keycode::KEY_WAKEUP => 143,
            Keycode::KEY_FILE => 144,
            Keycode::KEY_SENDFILE => 145,
            Keycode::KEY_DELETEFILE => 146,
            Keycode::KEY_XFER => 147,
            Keycode::KEY_PROG1 => 148,
            Keycode::KEY_PROG2 => 149,
            Keycode::KEY_WWW => 150,
            Keycode::KEY_MSDOS => 151,
            Keycode::KEY_COFFEE => 152,
            Keycode::KEY_ROTATE_DISPLAY => 153,
            Keycode::KEY_CYCLEWINDOWS => 154,
            Keycode::KEY_MAIL => 155,
            Keycode::KEY_BOOKMARKS => 156,
            Keycode::KEY_COMPUTER => 157,
            Keycode::KEY_BACK => 158,
            Keycode::KEY_FORWARD => 159,
            Keycode::KEY_CLOSECD => 160,
            Keycode::KEY_EJECTCD => 161,
            Keycode::KEY_EJECTCLOSECD => 162,
            Keycode::KEY_NEXTSONG => 163,
            Keycode::KEY_PLAYPAUSE => 164,
            Keycode::KEY_PREVIOUSSONG => 165,
            Keycode::KEY_STOPCD => 166,
            Keycode::KEY_RECORD => 167,
            Keycode::KEY_REWIND => 168,
            Keycode::KEY_PHONE => 169,
            Keycode::KEY_ISO => 170,
            Keycode::KEY_CONFIG => 171,
            Keycode::KEY_HOMEPAGE => 172,
            Keycode::KEY_REFRESH => 173,
            Keycode::KEY_EXIT => 174,
            Keycode::KEY_MOVE => 175,
            Keycode::KEY_EDIT => 176,
            Keycode::KEY_SCROLLUP => 177,
            Keycode::KEY_SCROLLDOWN => 178,
            Keycode::KEY_KPLEFTPAREN => 179,
            Keycode::KEY_KPRIGHTPAREN => 180,
            Keycode::KEY_NEW => 181,
            Keycode::KEY_REDO => 182,
            Keycode::KEY_F13 => 183,
            Keycode::KEY_F14 => 184,
            Keycode::KEY_F15 => 185,
            Keycode::KEY_F16 => 186,
            Keycode::KEY_F17 => 187,
            Keycode::KEY_F18 => 188,
            Keycode::KEY_F19 => 189,
            Keycode::KEY_F20 => 190,
            Keycode::KEY_F21 => 191,
            Keycode::KEY_F22 => 192,
            Keycode::KEY_F23 => 193,
            Keycode::KEY_F24 => 194,
            Keycode::KEY_PLAYCD => 200,
            Keycode::KEY_PAUSECD => 201,
            Keycode::KEY_PROG3 => 202,
            Keycode::KEY_PROG4 => 203,
            Keycode::KEY_ALL_APPLICATIONS => 204,
            Keycode::KEY_SUSPEND => 205,
            Keycode::KEY_CLOSE => 206,
            Keycode::KEY_PLAY => 207,
            Keycode::KEY_FASTFORWARD => 208,
            Keycode::KEY_BASSBOOST => 209,
            Keycode::KEY_PRINT => 210,
            Keycode::KEY_HP => 211,
            Keycode::KEY_CAMERA => 212,
            Keycode::KEY_SOUND => 213,
            Keycode::KEY_QUESTION => 214,
            Keycode::KEY_EMAIL => 215,
            Keycode::KEY_CHAT => 216,
            Keycode::KEY_SEARCH => 217,
            Keycode::KEY_CONNECT => 218,
            Keycode::KEY_FINANCE => 219,
            Keycode::KEY_SPORT => 220,
            Keycode::KEY_SHOP => 221,
            Keycode::KEY_ALTERASE => 222,
            Keycode::KEY_CANCEL => 223,
            Keycode::KEY_BRIGHTNESSDOWN => 224,
            Keycode::KEY_BRIGHTNESSUP => 225,
            Keycode::KEY_MEDIA => 226,
            Keycode::KEY_SWITCHVIDEOMODE => 227,
            Keycode::KEY_KBDILLUMTOGGLE => 228,
            Keycode::KEY_KBDILLUMDOWN => 229,
            Keycode::KEY_KBDILLUMUP => 230,
            Keycode::KEY_SEND => 231,
            Keycode::KEY_REPLY => 232,
            Keycode::KEY_FORWARDMAIL => 233,
            Keycode::KEY_SAVE => 234,
            Keycode::KEY_DOCUMENTS => 235,
            Keycode::KEY_BATTERY => 236,
            Keycode::KEY_BLUETOOTH => 237,
            Keycode::KEY_WLAN => 238,
            Keycode::KEY_UWB => 239,
            Keycode::KEY_UNKNOWN => 240,
            Keycode::KEY_VIDEO_NEXT => 241,
            Keycode::KEY_VIDEO_PREV => 242,
            Keycode::KEY_BRIGHTNESS_CYCLE => 243,
            Keycode::KEY_BRIGHTNESS_AUTO => 244,
            Keycode::KEY_DISPLAY_OFF => 245,
            Keycode::KEY_WWAN => 246,
            Keycode::KEY_RFKILL => 247,
            Keycode::KEY_MICMUTE => 248,
            Keycode::KEY_OK => 352,
            Keycode::KEY_SELECT => 353,
            Keycode::KEY_GOTO => 354,
            Keycode::KEY_CLEAR => 355,
            Keycode::KEY_POWER2 => 356,
            Keycode::KEY_OPTION => 357,
            Keycode::KEY_INFO => 358,
            Keycode::KEY_TIME => 359,
            Keycode::KEY_VENDOR => 360,
            Keycode::KEY_ARCHIVE => 361,
            Keycode::KEY_PROGRAM => 362,
            Keycode::KEY_CHANNEL => 363,
            Keycode::KEY_FAVORITES => 364,
            Keycode::KEY_EPG => 365,
            Keycode::KEY_PVR => 366,
            Keycode::KEY_MHP => 367,
            Keycode::KEY_LANGUAGE => 368,
            Keycode::KEY_TITLE => 369,
            Keycode::KEY_SUBTITLE => 370,
            Keycode::KEY_ANGLE => 371,
            Keycode::KEY_FULL_SCREEN => 372,
            Keycode::KEY_MODE => 373,
            Keycode::KEY_KEYBOARD => 374,
            Keycode::KEY_ASPECT_RATIO => 375,
            Keycode::KEY_PC => 376,
            Keycode::KEY_TV => 377,
            Keycode::KEY_TV2 => 378,
            Keycode::KEY_VCR => 379,
            Keycode::KEY_VCR2 => 380,
            Keycode::KEY_SAT => 381,
            Keycode::KEY_SAT2 => 382,
            Keycode::KEY_CD => 383,
            Keycode::KEY_TAPE => 384,
            Keycode::KEY_RADIO => 385,
            Keycode::KEY_TUNER => 386,
            Keycode::KEY_PLAYER => 387,
            Keycode::KEY_TEXT => 388,
            Keycode::KEY_DVD => 389,
            Keycode::KEY_AUX => 390,
            Keycode::KEY_MP3 => 391,
            Keycode::KEY_AUDIO => 392,
            Keycode::KEY_VIDEO => 393,
            Keycode::KEY_DIRECTORY => 394,
            Keycode::KEY_LIST => 395,
            Keycode::KEY_MEMO => 396,
            Keycode::KEY_CALENDAR => 397,
            Keycode::KEY_RED => 398,
            Keycode::KEY_GREEN => 399,
            Keycode::KEY_YELLOW => 400,
            Keycode::KEY_BLUE => 401,
            Keycode::KEY_CHANNELUP => 402,
            Keycode::KEY_CHANNELDOWN => 403,
            Keycode::KEY_FIRST => 404,
            Keycode::KEY_LAST => 405,
            Keycode::KEY_AB => 406,
            Keycode::KEY_NEXT => 407,
            Keycode::KEY_RESTART => 408,
            Keycode::KEY_SLOW => 409,
            Keycode::KEY_SHUFFLE => 410,
            Keycode::KEY_BREAK => 411,
            Keycode::KEY_PREVIOUS => 412,
            Keycode::KEY_DIGITS => 413,
            Keycode::KEY_TEEN => 414,
            Keycode::KEY_TWEN => 415,
            Keycode::KEY_VIDEOPHONE => 416,
            Keycode::KEY_GAMES => 417,
            Keycode::KEY_ZOOMIN => 418,
            Keycode::KEY_ZOOMOUT => 419,
            Keycode::KEY_ZOOMRESET => 420,
            Keycode::KEY_WORDPROCESSOR => 421,
            Keycode::KEY_EDITOR => 422,
            Keycode::KEY_SPREADSHEET => 423,
            Keycode::KEY_GRAPHICSEDITOR => 424,
            Keycode::KEY_PRESENTATION => 425,
            Keycode::KEY_DATABASE => 426,
            Keycode::KEY_NEWS => 427,
            Keycode::KEY_VOICEMAIL => 428,
            Keycode::KEY_ADDRESSBOOK => 429,
            Keycode::KEY_MESSENGER => 430,
            Keycode::KEY_DISPLAYTOGGLE => 431,
            Keycode::KEY_SPELLCHECK => 432,
            Keycode::KEY_LOGOFF => 433,
            Keycode::KEY_DOLLAR => 434,
            Keycode::KEY_EURO => 435,
            Keycode::KEY_FRAMEBACK => 436,
            Keycode::KEY_FRAMEFORWARD => 437,
            Keycode::KEY_CONTEXT_MENU => 438,
            Keycode::KEY_MEDIA_REPEAT => 439,
            Keycode::KEY_10CHANNELSUP => 440,
            Keycode::KEY_10CHANNELSDOWN => 441,
            Keycode::KEY_IMAGES => 442,
            Keycode::KEY_NOTIFICATION_CENTER => 444,
            Keycode::KEY_PICKUP_PHONE => 445,
            Keycode::KEY_HANGUP_PHONE => 446,
            Keycode::KEY_LINK_PHONE => 447,
            Keycode::KEY_DEL_EOL => 448,
            Keycode::KEY_DEL_EOS => 449,
            Keycode::KEY_INS_LINE => 450,
            Keycode::KEY_DEL_LINE => 451,
            Keycode::KEY_FN => 464,
            Keycode::KEY_FN_ESC => 465,
            Keycode::KEY_FN_F1 => 466,
            Keycode::KEY_FN_F2 => 467,
            Keycode::KEY_FN_F3 => 468,
            Keycode::KEY_FN_F4 => 469,
            Keycode::KEY_FN_F5 => 470,
            Keycode::KEY_FN_F6 => 471,
            Keycode::KEY_FN_F7 => 472,
            Keycode::KEY_FN_F8 => 473,
            Keycode::KEY_FN_F9 => 474,
            Keycode::KEY_FN_F10 => 475,
            Keycode::KEY_FN_F11 => 476,
            Keycode::KEY_FN_F12 => 477,
            Keycode::KEY_FN_1 => 478,
            Keycode::KEY_FN_2 => 479,
            Keycode::KEY_FN_D => 480,
            Keycode::KEY_FN_E => 481,
            Keycode::KEY_FN_F => 482,
            Keycode::KEY_FN_S => 483,
            Keycode::KEY_FN_B => 484,
            Keycode::KEY_FN_RIGHT_SHIFT => 485,
            Keycode::KEY_BRL_DOT1 => 497,
            Keycode::KEY_BRL_DOT2 => 498,
            Keycode::KEY_BRL_DOT3 => 499,
            Keycode::KEY_BRL_DOT4 => 500,
            Keycode::KEY_BRL_DOT5 => 501,
            Keycode::KEY_BRL_DOT6 => 502,
            Keycode::KEY_BRL_DOT7 => 503,
            Keycode::KEY_BRL_DOT8 => 504,
            Keycode::KEY_BRL_DOT9 => 505,
            Keycode::KEY_BRL_DOT10 => 506,
            Keycode::KEY_NUMERIC_0 => 512,
            Keycode::KEY_NUMERIC_1 => 513,
            Keycode::KEY_NUMERIC_2 => 514,
            Keycode::KEY_NUMERIC_3 => 515,
            Keycode::KEY_NUMERIC_4 => 516,
            Keycode::KEY_NUMERIC_5 => 517,
            Keycode::KEY_NUMERIC_6 => 518,
            Keycode::KEY_NUMERIC_7 => 519,
            Keycode::KEY_NUMERIC_8 => 520,
            Keycode::KEY_NUMERIC_9 => 521,
            Keycode::KEY_NUMERIC_STAR => 522,
            Keycode::KEY_NUMERIC_POUND => 523,
            Keycode::KEY_NUMERIC_A => 524,
            Keycode::KEY_NUMERIC_B => 525,
            Keycode::KEY_NUMERIC_C => 526,
            Keycode::KEY_NUMERIC_D => 527,
            Keycode::KEY_CAMERA_FOCUS => 528,
            Keycode::KEY_WPS_BUTTON => 529,
            Keycode::KEY_TOUCHPAD_TOGGLE => 530,
            Keycode::KEY_TOUCHPAD_ON => 531,
            Keycode::KEY_TOUCHPAD_OFF => 532,
            Keycode::KEY_CAMERA_ZOOMIN => 533,
            Keycode::KEY_CAMERA_ZOOMOUT => 534,
            Keycode::KEY_CAMERA_UP => 535,
            Keycode::KEY_CAMERA_DOWN => 536,
            Keycode::KEY_CAMERA_LEFT => 537,
            Keycode::KEY_CAMERA_RIGHT => 538,
            Keycode::KEY_ATTENDANT_ON => 539,
            Keycode::KEY_ATTENDANT_OFF => 540,
            Keycode::KEY_ATTENDANT_TOGGLE => 541,
            Keycode::KEY_LIGHTS_TOGGLE => 542,
            Keycode::KEY_ALS_TOGGLE => 560,
            Keycode::KEY_ROTATE_LOCK_TOGGLE => 561,
            Keycode::KEY_REFRESH_RATE_TOGGLE => 562,
            Keycode::KEY_BUTTONCONFIG => 576,
            Keycode::KEY_TASKMANAGER => 577,
            Keycode::KEY_JOURNAL => 578,
            Keycode::KEY_CONTROLPANEL => 579,
            Keycode::KEY_APPSELECT => 580,
            Keycode::KEY_SCREENSAVER => 581,
            Keycode::KEY_VOICECOMMAND => 582,
            Keycode::KEY_ASSISTANT => 583,
            Keycode::KEY_KBD_LAYOUT_NEXT => 584,
            Keycode::KEY_EMOJI_PICKER => 585,
            Keycode::KEY_DICTATE => 586,
            Keycode::KEY_BRIGHTNESS_MIN => 592,
            Keycode::KEY_BRIGHTNESS_MAX => 593,
            Keycode::KEY_KBDINPUTASSIST_PREV => 608,
            Keycode::KEY_KBDINPUTASSIST_NEXT => 609,
            Keycode::KEY_KBDINPUTASSIST_PREVGROUP => 610,
            Keycode::KEY_KBDINPUTASSIST_NEXTGROUP => 611,
            Keycode::KEY_KBDINPUTASSIST_ACCEPT => 612,
            Keycode::KEY_KBDINPUTASSIST_CANCEL => 613,
            Keycode::KEY_RIGHT_UP => 614,
            Keycode::KEY_RIGHT_DOWN => 615,
            Keycode::KEY_LEFT_UP => 616,
            Keycode::KEY_LEFT_DOWN => 617,
            Keycode::KEY_ROOT_MENU => 618,
            Keycode::KEY_MEDIA_TOP_MENU => 619,
            Keycode::KEY_NUMERIC_11 => 620,
            Keycode::KEY_NUMERIC_12 => 621,
            Keycode::KEY_AUDIO_DESC => 622,
            Keycode::KEY_3D_MODE => 623,
            Keycode::KEY_NEXT_FAVORITE => 624,
            Keycode::KEY_STOP_RECORD => 625,
            Keycode::KEY_PAUSE_RECORD => 626,
            Keycode::KEY_VOD => 627,
            Keycode::KEY_UNMUTE => 628,
            Keycode::KEY_FASTREVERSE => 629,
            Keycode::KEY_SLOWREVERSE => 630,
            Keycode::KEY_DATA => 631,
            Keycode::KEY_ONSCREEN_KEYBOARD => 632,
            Keycode::KEY_PRIVACY_SCREEN_TOGGLE => 633,
            Keycode::KEY_SELECTIVE_SCREENSHOT => 634,
            Keycode::KEY_NEXT_ELEMENT => 635,
            Keycode::KEY_PREVIOUS_ELEMENT => 636,
            Keycode::KEY_AUTOPILOT_ENGAGE_TOGGLE => 637,
            Keycode::KEY_MARK_WAYPOINT => 638,
            Keycode::KEY_SOS => 639,
            Keycode::KEY_NAV_CHART => 640,
            Keycode::KEY_FISHING_CHART => 641,
            Keycode::KEY_SINGLE_RANGE_RADAR => 642,
            Keycode::KEY_DUAL_RANGE_RADAR => 643,
            Keycode::KEY_RADAR_OVERLAY => 644,
            Keycode::KEY_TRADITIONAL_SONAR => 645,
            Keycode::KEY_CLEARVU_SONAR => 646,
            Keycode::KEY_SIDEVU_SONAR => 647,
            Keycode::KEY_NAV_INFO => 648,
            Keycode::KEY_BRIGHTNESS_MENU => 649,
            Keycode::KEY_MACRO1 => 656,
            Keycode::KEY_MACRO2 => 657,
            Keycode::KEY_MACRO3 => 658,
            Keycode::KEY_MACRO4 => 659,
            Keycode::KEY_MACRO5 => 660,
            Keycode::KEY_MACRO6 => 661,
            Keycode::KEY_MACRO7 => 662,
            Keycode::KEY_MACRO8 => 663,
            Keycode::KEY_MACRO9 => 664,
            Keycode::KEY_MACRO10 => 665,
            Keycode::KEY_MACRO11 => 666,
            Keycode::KEY_MACRO12 => 667,
            Keycode::KEY_MACRO13 => 668,
            Keycode::KEY_MACRO14 => 669,
            Keycode::KEY_MACRO15 => 670,
            Keycode::KEY_MACRO16 => 671,
            Keycode::KEY_MACRO17 => 672,
            Keycode::KEY_MACRO18 => 673,
            Keycode::KEY_MACRO19 => 674,
            Keycode::KEY_MACRO20 => 675,
            Keycode::KEY_MACRO21 => 676,
            Keycode::KEY_MACRO22 => 677,
            Keycode::KEY_MACRO23 => 678,
            Keycode::KEY_MACRO24 => 679,
            Keycode::KEY_MACRO25 => 680,
            Keycode::KEY_MACRO26 => 681,
            Keycode::KEY_MACRO27 => 682,
            Keycode::KEY_MACRO28 => 683,
            Keycode::KEY_MACRO29 => 684,
            Keycode::KEY_MACRO30 => 685,
            Keycode::KEY_MACRO_RECORD_START => 688,
            Keycode::KEY_MACRO_RECORD_STOP => 689,
            Keycode::KEY_MACRO_PRESET_CYCLE => 690,
            Keycode::KEY_MACRO_PRESET1 => 691,
            Keycode::KEY_MACRO_PRESET2 => 692,
            Keycode::KEY_MACRO_PRESET3 => 693,
            Keycode::KEY_KBD_LCD_MENU1 => 696,
            Keycode::KEY_KBD_LCD_MENU2 => 697,
            Keycode::KEY_KBD_LCD_MENU3 => 698,
            Keycode::KEY_KBD_LCD_MENU4 => 699,
            Keycode::KEY_KBD_LCD_MENU5 => 700,
            Keycode::KEY_MAX => 767,
            Keycode::KEY_CNT => 768,
        }
    }

    /// Looks up the key code with the given numeric value.
    pub fn try_from(value: u16) -> (r: Result<Keycode, ()>)
        ensures
            r == (match Self::spec_from_code(value) {
                Some(k) => Ok(k),
                None => Err(()),
            }),
            r matches Ok(k) ==> k.spec_code() == value && k.spec_name() == kernel_key_name(value),
    {
        proof {
            lemma_from_code_is_kernel_key(value);
        }
        match value {
            0 => Ok(Keycode::KEY_RESERVED),
            1 => Ok(Keycode::KEY_ESC),
            2 => Ok(Keycode::KEY_1),
            3 => Ok(Keycode::KEY_2),
            4 => Ok(Keycode::KEY_3),
            5 => Ok(Keycode::KEY_4),
            6 => Ok(Keycode::KEY_5),
            7 => Ok(Keycode::KEY_6),
            8 => Ok(Keycode::KEY_7),
            9 => Ok(Keycode::KEY_8),
            10 => Ok(Keycode::KEY_9),
            11 => Ok(Keycode::KEY_0),
            12 => Ok(Keycode::KEY_MINUS),
            13 => Ok(Keycode::KEY_EQUAL),
            14 => Ok(Keycode::KEY_BACKSPACE),
            15 => Ok(Keycode::KEY_TAB),
            16 => Ok(Keycode::KEY_Q),
            17 => Ok(Keycode::KEY_W),
            18 => Ok(Keycode::KEY_E),
            19 => Ok(Keycode::KEY_R),
            20 => Ok(Keycode::KEY_T),
            21 => Ok(Keycode::KEY_Y),
            22 => Ok(Keycode::KEY_U),
            23 => Ok(Keycode::KEY_I),
            24 => Ok(Keycode::KEY_O),
            25 => Ok(Keycode::KEY_P),
            26 => Ok(Keycode::KEY_LEFTBRACE),
            27 => Ok(Keycode::KEY_RIGHTBRACE),
            28 => Ok(Keycode::KEY_ENTER),
            29 => Ok(Keycode::KEY_LEFTCTRL),
            30 => Ok(Keycode::KEY_A),
            31 => Ok(Keycode::KEY_S),
            32 => Ok(Keycode::KEY_D),
            33 => Ok(Keycode::KEY_F),
            34 => Ok(Keycode::KEY_G),
            35 => Ok(Keycode::KEY_H),
            36 => Ok(Keycode::KEY_J),
            37 => Ok(Keycode::KEY_K),
            38 => Ok(Keycode::KEY_L),
            39 => Ok(Keycode::KEY_SEMICOLON),
            40 => Ok(Keycode::KEY_APOSTROPHE),
            41 => Ok(Keycode::KEY_GRAVE),
            42 => Ok(Keycode::KEY_LEFTSHIFT),
            43 => Ok(Keycode::KEY_BACKSLASH),
            44 => Ok(Keycode::KEY_Z),
            45 => Ok(Keycode::KEY_X),
            46 => Ok(Keycode::KEY_C),
            47 => Ok(Keycode::KEY_V),
            48 => Ok(Keycode::KEY_B),
            49 => Ok(Keycode::KEY_N),
            50 => Ok(Keycode::KEY_M),
            51 => Ok(Keycode::KEY_COMMA),
            52 => Ok(Keycode::KEY_DOT),
            53 => Ok(Keycode::KEY_SLASH),
            54 => Ok(Keycode::KEY_RIGHTSHIFT),
            55 => Ok(Keycode::KEY_KPASTERISK),
            56 => Ok(Keycode::KEY_LEFTALT),
            57 => Ok(Keycode::KEY_SPACE),
            58 => Ok(Keycode::KEY_CAPSLOCK),
            59 => Ok(Keycode::KEY_F1),
            60 => Ok(Keycode::KEY_F2),
            61 => Ok(Keycode::KEY_F3),
            62 => Ok(Keycode::KEY_F4),
            63 => Ok(Keycode::KEY_F5),
            64 => Ok(Keycode::KEY_F6),
            65 => Ok(Keycode::KEY_F7),
            66 => Ok(Keycode::KEY_F8),
            67 => Ok(Keycode::KEY_F9),
            68 => Ok(Keycode::KEY_F10),
            69 => Ok(Keycode::KEY_NUMLOCK),
            70 => Ok(Keycode::KEY_SCROLLLOCK),
            71 => Ok(Keycode::KEY_KP7),
            72 => Ok(Keycode::KEY_KP8),
            73 => Ok(Keycode::KEY_KP9),
            74 => Ok(Keycode::KEY_KPMINUS),
            75 => Ok(Keycode::KEY_KP4),
            76 => Ok(Keycode::KEY_KP5),
            77 => Ok(Keycode::KEY_KP6),
            78 => Ok(Keycode::KEY_KPPLUS),
            79 => Ok(Keycode::KEY_KP1),
            80 => Ok(Keycode::KEY_KP2),
            81 => Ok(Keycode::KEY_KP3),
            82 => Ok(Keycode::KEY_KP0),
            83 => Ok(Keycode::KEY_KPDOT),
            85 => Ok(Keycode::KEY_ZENKAKUHANKAKU),
            86 => Ok(Keycode::KEY_102ND),
            87 => Ok(Keycode::KEY_F11),
            88 => Ok(Keycode::KEY_F12),
            89 => Ok(Keycode::KEY_RO),
            90 => Ok(Keycode::KEY_KATAKANA),
            91 => Ok(Keycode::KEY_HIRAGANA),
            92 => Ok(Keycode::KEY_HENKAN),
            93 => Ok(Keycode::KEY_KATAKANAHIRAGANA),
            94 => Ok(Keycode::KEY_MUHENKAN),
            95 => Ok(Keycode::KEY_KPJPCOMMA),
            96 => Ok(Keycode::KEY_KPENTER),
            97 => Ok(Keycode::KEY_RIGHTCTRL),
            98 => Ok(Keycode::KEY_KPSLASH),
            99 => Ok(Keycode::KEY_SYSRQ),
            100 => Ok(Keycode::KEY_RIGHTALT),
            101 => Ok(Keycode::KEY_LINEFEED),
            102 => Ok(Keycode::KEY_HOME),
            103 => Ok(Keycode::KEY_UP),
            104 => Ok(Keycode::KEY_PAGEUP),
            105 => Ok(Keycode::KEY_LEFT),
            106 => Ok(Keycode::KEY_RIGHT),
            107 => Ok(Keycode::KEY_END),
            108 => Ok(Keycode::KEY_DOWN),
            109 => Ok(Keycode::KEY_PAGEDOWN),
            110 => Ok(Keycode::KEY_INSERT),
            111 => Ok(Keycode::KEY_DELETE),
            112 => Ok(Keycode::KEY_MACRO),
            113 => Ok(Keycode::KEY_MUTE),
            114 => Ok(Keycode::KEY_VOLUMEDOWN),
            115 => Ok(Keycode::KEY_VOLUMEUP),
            116 => Ok(Keycode::KEY_POWER),
            117 => Ok(Keycode::KEY_KPEQUAL),
            118 => Ok(Keycode::KEY_KPPLUSMINUS),
            119 => Ok(Keycode::KEY_PAUSE),
            120 => Ok(Keycode::KEY_SCALE),
            121 => Ok(Keycode::KEY_KPCOMMA),
            122 => Ok(Keycode::KEY_HANGEUL),
            123 => Ok(Keycode::KEY_HANJA),
            124 => Ok(Keycode::KEY_YEN),
            125 => Ok(Keycode::KEY_LEFTMETA),
            126 => Ok(Keycode::KEY_RIGHTMETA),
            127 => Ok(Keycode::KEY_COMPOSE),
            128 => Ok(Keycode::KEY_STOP),
            129 => Ok(Keycode::KEY_AGAIN),
            130 => Ok(Keycode::KEY_PROPS),
            131 => Ok(Keycode::KEY_UNDO),
            132 => Ok(Keycode::KEY_FRONT),
            133 => Ok(Keycode::KEY_COPY),
            134 => Ok(Keycode::KEY_OPEN),
            135 => Ok(Keycode::KEY_PASTE),
            136 => Ok(Keycode::KEY_FIND),
            137 => Ok(Keycode::KEY_CUT),
            138 => Ok(Keycode::KEY_HELP),
            139 => Ok(Keycode::KEY_MENU),
            140 => Ok(Keycode::KEY_CALC),
            141 => Ok(Keycode::KEY_SETUP),
            142 => Ok(Keycode::KEY_SLEEP),
            143 => Ok(Keycode::KEY_WAKEUP),
            144 => Ok(Keycode::KEY_FILE),
            145 => Ok(Keycode::KEY_SENDFILE),
            146 => Ok(Keycode::KEY_DELETEFILE),
            147 => Ok(Keycode::KEY_XFER),
            148 => Ok(Keycode::KEY_PROG1),
            149 => Ok(Keycode::KEY_PROG2),
            150 => Ok(Keycode::KEY_WWW),
            151 => Ok(Keycode::KEY_MSDOS),
            152 => Ok(Keycode::KEY_COFFEE),
            153 => Ok(Keycode::KEY_ROTATE_DISPLAY),
            154 => Ok(Keycode::KEY_CYCLEWINDOWS),
            155 => Ok(Keycode::KEY_MAIL),
            156 => Ok(Keycode::KEY_BOOKMARKS),
            157 => Ok(Keycode::KEY_COMPUTER),
            158 => Ok(Keycode::KEY_BACK),
            159 => Ok(Keycode::KEY_FORWARD),
            160 => Ok(Keycode::KEY_CLOSECD),
            161 => Ok(Keycode::KEY_EJECTCD),
            162 => Ok(Keycode::KEY_EJECTCLOSECD),
            163 => Ok(Keycode::KEY_NEXTSONG),
            164 => Ok(Keycode::KEY_PLAYPAUSE),
            165 => Ok(Keycode::KEY_PREVIOUSSONG),
            166 => Ok(Keycode::KEY_STOPCD),
            167 => Ok(Keycode::KEY_RECORD),
            168 => Ok(Keycode::KEY_REWIND),
            169 => Ok(Keycode::KEY_PHONE),
            170 => Ok(Keycode::KEY_ISO),
            171 => Ok(Keycode::KEY_CONFIG),
            172 => Ok(Keycode::KEY_HOMEPAGE),
            173 => Ok(Keycode::KEY_REFRESH),
            174 => Ok(Keycode::KEY_EXIT),
            175 => Ok(Keycode::KEY_MOVE),
            176 => Ok(Keycode::KEY_EDIT),
            177 => Ok(Keycode::KEY_SCROLLUP),
            178 => Ok(Keycode::KEY_SCROLLDOWN),
            179 => Ok(Keycode::KEY_KPLEFTPAREN),
            180 => Ok(Keycode::KEY_KPRIGHTPAREN),
            181 => Ok(Keycode::KEY_NEW),
            182 => Ok(Keycode::KEY_REDO),
            183 => Ok(Keycode::KEY_F13),
            184 => Ok(Keycode::KEY_F14),
            185 => Ok(Keycode::KEY_F15),
            186 => Ok(Keycode::KEY_F16),
            187 => Ok(Keycode::KEY_F17),
            188 => Ok(Keycode::KEY_F18),
            189 => Ok(Keycode::KEY_F19),
            190 => Ok(Keycode::KEY_F20),
            191 => Ok(Keycode::KEY_F21),
            192 => Ok(Keycode::KEY_F22),
            193 => Ok(Keycode::KEY_F23),
            194 => Ok(Keycode::KEY_F24),
            200 => Ok(Keycode::KEY_PLAYCD),
            201 => Ok(Keycode::KEY_PAUSECD),
            202 => Ok(Keycode::KEY_PROG3),
            203 => Ok(Keycode::KEY_PROG4),
            204 => Ok(Keycode::KEY_ALL_APPLICATIONS),
            205 => Ok(Keycode::KEY_SUSPEND),
            206 => Ok(Keycode::KEY_CLOSE),
            207 => Ok(Keycode::KEY_PLAY),
            208 => Ok(Keycode::KEY_FASTFORWARD),
            209 => Ok(Keycode::KEY_BASSBOOST),
            210 => Ok(Keycode::KEY_PRINT),
            211 => Ok(Keycode::KEY_HP),
            212 => Ok(Keycode::KEY_CAMERA),
            213 => Ok(Keycode::KEY_SOUND),
            214 => Ok(Keycode::KEY_QUESTION),
            215 => Ok(Keycode::KEY_EMAIL),
            216 => Ok(Keycode::KEY_CHAT),
            217 => Ok(Keycode::KEY_SEARCH),
            218 => Ok(Keycode::KEY_CONNECT),
            219 => Ok(Keycode::KEY_FINANCE),
            220 => Ok(Keycode::KEY_SPORT),
            221 => Ok(Keycode::KEY_SHOP),
            222 => Ok(Keycode::KEY_ALTERASE),
            223 => Ok(Keycode::KEY_CANCEL),
            224 => Ok(Keycode::KEY_BRIGHTNESSDOWN),
            225 => Ok(Keycode::KEY_BRIGHTNESSUP),
            226 => Ok(Keycode::KEY_MEDIA),
            227 => Ok(Keycode::KEY_SWITCHVIDEOMODE),
            228 => Ok(Keycode::KEY_KBDILLUMTOGGLE),
            229 => Ok(Keycode::KEY_KBDILLUMDOWN),
            230 => Ok(Keycode::KEY_KBDILLUMUP),
            231 => Ok(Keycode::KEY_SEND),
            232 => Ok(Keycode::KEY_REPLY),
            233 => Ok(Keycode::KEY_FORWARDMAIL),
            234 => Ok(Keycode::KEY_SAVE),
            235 => Ok(Keycode::KEY_DOCUMENTS),
            236 => Ok(Keycode::KEY_BATTERY),
            237 => Ok(Keycode::KEY_BLUETOOTH),
            238 => Ok(Keycode::KEY_WLAN),
            239 => Ok(Keycode::KEY_UWB),
            240 => Ok(Keycode::KEY_UNKNOWN),
            241 => Ok(Keycode::KEY_VIDEO_NEXT),
            242 => Ok(Keycode::KEY_VIDEO_PREV),
            243 => Ok(Keycode::KEY_BRIGHTNESS_CYCLE),
            244 => Ok(Keycode::KEY_BRIGHTNESS_AUTO),
            245 => Ok(Keycode::KEY_DISPLAY_OFF),
            246 => Ok(Keycode::KEY_WWAN),
            247 => Ok(Keycode::KEY_RFKILL),
            248 => Ok(Keycode::KEY_MICMUTE),
            352 => Ok(Keycode::KEY_OK),
            353 => Ok(Keycode::KEY_SELECT),
            354 => Ok(Keycode::KEY_GOTO),
            355 => Ok(Keycode::KEY_CLEAR),
            356 => Ok(Keycode::KEY_POWER2),
            357 => Ok(Keycode::KEY_OPTION),
            358 => Ok(Keycode::KEY_INFO),
            359 => Ok(Keycode::KEY_TIME),
            360 => Ok(Keycode::KEY_VENDOR),
            361 => Ok(Keycode::KEY_ARCHIVE),
            362 => Ok(Keycode::KEY_PROGRAM),
            363 => Ok(Keycode::KEY_CHANNEL),
            364 => Ok(Keycode::KEY_FAVORITES),
            365 => Ok(Keycode::KEY_EPG),
            366 => Ok(Keycode::KEY_PVR),
            367 => Ok(Keycode::KEY_MHP),
            368 => Ok(Keycode::KEY_LANGUAGE),
            369 => Ok(Keycode::KEY_TITLE),
            370 => Ok(Keycode::KEY_SUBTITLE),
            371 => Ok(Keycode::KEY_ANGLE),
            372 => Ok(Keycode::KEY_FULL_SCREEN),
            373 => Ok(Keycode::KEY_MODE),
            374 => Ok(Keycode::KEY_KEYBOARD),
            375 => Ok(Keycode::KEY_ASPECT_RATIO),
            376 => Ok(Keycode::KEY_PC),
            377 => Ok(Keycode::KEY_TV),
            378 => Ok(Keycode::KEY_TV2),
            379 => Ok(Keycode::KEY_VCR),
            380 => Ok(Keycode::KEY_VCR2),
            381 => Ok(Keycode::KEY_SAT),
            382 => Ok(Keycode::KEY_SAT2),
            383 => Ok(Keycode::KEY_CD),
            384 => Ok(Keycode::KEY_TAPE),
            385 => Ok(Keycode::KEY_RADIO),
            386 => Ok(Keycode::KEY_TUNER),
            387 => Ok(Keycode::KEY_PLAYER),
            388 => Ok(Keycode::KEY_TEXT),
            389 => Ok(Keycode::KEY_DVD),
            390 => Ok(Keycode::KEY_AUX),
            391 => Ok(Keycode::KEY_MP3),
            392 => Ok(Keycode::KEY_AUDIO),
            393 => Ok(Keycode::KEY_VIDEO),
            394 => Ok(Keycode::KEY_DIRECTORY),
            395 => Ok(Keycode::KEY_LIST),
            396 => Ok(Keycode::KEY_MEMO),
            397 => Ok(Keycode::KEY_CALENDAR),
            398 => Ok(Keycode::KEY_RED),
            399 => Ok(Keycode::KEY_GREEN),
            400 => Ok(Keycode::KEY_YELLOW),
            401 => Ok(Keycode::KEY_BLUE),
            402 => Ok(Keycode::KEY_CHANNELUP),
            403 => Ok(Keycode::KEY_CHANNELDOWN),
            404 => Ok(Keycode::KEY_FIRST),
            405 => Ok(Keycode::KEY_LAST),
            406 => Ok(Keycode::KEY_AB),
            407 => Ok(Keycode::KEY_NEXT),
            408 => Ok(Keycode::KEY_RESTART),
            409 => Ok(Keycode::KEY_SLOW),
            410 => Ok(Keycode::KEY_SHUFFLE),
            411 => Ok(Keycode::KEY_BREAK),
            412 => Ok(Keycode::KEY_PREVIOUS),
            413 => Ok(Keycode::KEY_DIGITS),
            414 => Ok(Keycode::KEY_TEEN),
            415 => Ok(Keycode::KEY_TWEN),
            416 => Ok(Keycode::KEY_VIDEOPHONE),
            417 => Ok(Keycode::KEY_GAMES),
            418 => Ok(Keycode::KEY_ZOOMIN),
            419 => Ok(Keycode::KEY_ZOOMOUT),
            420 => Ok(Keycode::KEY_ZOOMRESET),
            421 => Ok(Keycode::KEY_WORDPROCESSOR),
            422 => Ok(Keycode::KEY_EDITOR),
            423 => Ok(Keycode::KEY_SPREADSHEET),
            424 => Ok(Keycode::KEY_GRAPHICSEDITOR),
            425 => Ok(Keycode::KEY_PRESENTATION),
            426 => Ok(Keycode::KEY_DATABASE),
            427 => Ok(Keycode::KEY_NEWS),
            428 => Ok(Keycode::KEY_VOICEMAIL),
            429 => Ok(Keycode::KEY_ADDRESSBOOK),
            430 => Ok(Keycode::KEY_MESSENGER),
            431 => Ok(Keycode::KEY_DISPLAYTOGGLE),
            432 => Ok(Keycode::KEY_SPELLCHECK),
            433 => Ok(Keycode::KEY_LOGOFF),
            434 => Ok(Keycode::KEY_DOLLAR),
            435 => Ok(Keycode::KEY_EURO),
            436 => Ok(Keycode::KEY_FRAMEBACK),
            437 => Ok(Keycode::KEY_FRAMEFORWARD),
            438 => Ok(Keycode::KEY_CONTEXT_MENU),
            439 => Ok(Keycode::KEY_MEDIA_REPEAT),
            440 => Ok(Keycode::KEY_10CHANNELSUP),
            441 => Ok(Keycode::KEY_10CHANNELSDOWN),
            442 => Ok(Keycode::KEY_IMAGES),
            444 => Ok(Keycode::KEY_NOTIFICATION_CENTER),
            445 => Ok(Keycode::KEY_PICKUP_PHONE),
            446 => Ok(Keycode::KEY_HANGUP_PHONE),
            447 => Ok(Keycode::KEY_LINK_PHONE),
            448 => Ok(Keycode::KEY_DEL_EOL),
            449 => Ok(Keycode::KEY_DEL_EOS),
            450 => Ok(Keycode::KEY_INS_LINE),
            451 => Ok(Keycode::KEY_DEL_LINE),
            464 => Ok(Keycode::KEY_FN),
            465 => Ok(Keycode::KEY_FN_ESC),
            466 => Ok(Keycode::KEY_FN_F1),
            467 => Ok(Keycode::KEY_FN_F2),
            468 => Ok(Keycode::KEY_FN_F3),
            469 => Ok(Keycode::KEY_FN_F4),
            470 => Ok(Keycode::KEY_FN_F5),
            471 => Ok(Keycode::KEY_FN_F6),
            472 => Ok(Keycode::KEY_FN_F7),
            473 => Ok(Keycode::KEY_FN_F8),
            474 => Ok(Keycode::KEY_FN_F9),
            475 => Ok(Keycode::KEY_FN_F10),
            476 => Ok(Keycode::KEY_FN_F11),
            477 => Ok(Keycode::KEY_FN_F12),
            478 => Ok(Keycode::KEY_FN_1),
            479 => Ok(Keycode::KEY_FN_2),
            480 => Ok(Keycode::KEY_FN_D),
            481 => Ok(Keycode::KEY_FN_E),
            482 => Ok(Keycode::KEY_FN_F),
            483 => Ok(Keycode::KEY_FN_S),
            484 => Ok(Keycode::KEY_FN_B),
            485 => Ok(Keycode::KEY_FN_RIGHT_SHIFT),
            497 => Ok(Keycode::KEY_BRL_DOT1),
            498 => Ok(Keycode::KEY_BRL_DOT2),
            499 => Ok(Keycode::KEY_BRL_DOT3),
            500 => Ok(Keycode::KEY_BRL_DOT4),
            501 => Ok(Keycode::KEY_BRL_DOT5),
            502 => Ok(Keycode::KEY_BRL_DOT6),
            503 => Ok(Keycode::KEY_BRL_DOT7),
            504 => Ok(Keycode::KEY_BRL_DOT8),
            505 => Ok(Keycode::KEY_BRL_DOT9),
            506 => Ok(Keycode::KEY_BRL_DOT10),
            512 => Ok(Keycode::KEY_NUMERIC_0),
            513 => Ok(Keycode::KEY_NUMERIC_1),
            514 => Ok(Keycode::KEY_NUMERIC_2),
            515 => Ok(Keycode::KEY_NUMERIC_3),
            516 => Ok(Keycode::KEY_NUMERIC_4),
            517 => Ok(Keycode::KEY_NUMERIC_5),
            518 => Ok(Keycode::KEY_NUMERIC_6),
            519 => Ok(Keycode::KEY_NUMERIC_7),
            520 => Ok(Keycode::KEY_NUMERIC_8),
            521 => Ok(Keycode::KEY_NUMERIC_9),
            522 => Ok(Keycode::KEY_NUMERIC_STAR),
            523 => Ok(Keycode::KEY_NUMERIC_POUND),
            524 => Ok(Keycode::KEY_NUMERIC_A),
            525 => Ok(Keycode::KEY_NUMERIC_B),
            526 => Ok(Keycode::KEY_NUMERIC_C),
            527 => Ok(Keycode::KEY_NUMERIC_D),
            528 => Ok(Keycode::KEY_CAMERA_FOCUS),
            529 => Ok(Keycode::KEY_WPS_BUTTON),
            530 => Ok(Keycode::KEY_TOUCHPAD_TOGGLE),
            531 => Ok(Keycode::KEY_TOUCHPAD_ON),
            532 => Ok(Keycode::KEY_TOUCHPAD_OFF),
            533 => Ok(Keycode::KEY_CAMERA_ZOOMIN),
            534 => Ok(Keycode::KEY_CAMERA_ZOOMOUT),
            535 => Ok(Keycode::KEY_CAMERA_UP),
            536 => Ok(Keycode::KEY_CAMERA_DOWN),
            537 => Ok(Keycode::KEY_CAMERA_LEFT),
            538 => Ok(Keycode::KEY_CAMERA_RIGHT),
            539 => Ok(Keycode::KEY_ATTENDANT_ON),
            540 => Ok(Keycode::KEY_ATTENDANT_OFF),
            541 => Ok(Keycode::KEY_ATTENDANT_TOGGLE),
            542 => Ok(Keycode::KEY_LIGHTS_TOGGLE),
            560 => Ok(Keycode::KEY_ALS_TOGGLE),
            561 => Ok(Keycode::KEY_ROTATE_LOCK_TOGGLE),
            562 => Ok(Keycode::KEY_REFRESH_RATE_TOGGLE),
            576 => Ok(Keycode::KEY_BUTTONCONFIG),
            577 => Ok(Keycode::KEY_TASKMANAGER),
            578 => Ok(Keycode::KEY_JOURNAL),
            579 => Ok(Keycode::KEY_CONTROLPANEL),
            580 => Ok(Keycode::KEY_APPSELECT),
            581 => Ok(Keycode::KEY_SCREENSAVER),
            582 => Ok(Keycode::KEY_VOICECOMMAND),
            583 => Ok(Keycode::KEY_ASSISTANT),
            584 => Ok(Keycode::KEY_KBD_LAYOUT_NEXT),
            585 => Ok(Keycode::KEY_EMOJI_PICKER),
            586 => Ok(Keycode::KEY_DICTATE),
            592 => Ok(Keycode::KEY_BRIGHTNESS_MIN),
            593 => Ok(Keycode::KEY_BRIGHTNESS_MAX),
            608 => Ok(Keycode::KEY_KBDINPUTASSIST_PREV),
            609 => Ok(Keycode::KEY_KBDINPUTASSIST_NEXT),
            610 => Ok(Keycode::KEY_KBDINPUTASSIST_PREVGROUP),
            611 => Ok(Keycode::KEY_KBDINPUTASSIST_NEXTGROUP),
            612 => Ok(Keycode::KEY_KBDINPUTASSIST_ACCEPT),
            613 => Ok(Keycode::KEY_KBDINPUTASSIST_CANCEL),
            614 => Ok(Keycode::KEY_RIGHT_UP),
            615 => Ok(Keycode::KEY_RIGHT_DOWN),
            616 => Ok(Keycode::KEY_LEFT_UP),
            617 => Ok(Keycode::KEY_LEFT_DOWN),
            618 => Ok(Keycode::KEY_ROOT_MENU),
            619 => Ok(Keycode::KEY_MEDIA_TOP_MENU),
            620 => Ok(Keycode::KEY_NUMERIC_11),
            621 => Ok(Keycode::KEY_NUMERIC_12),
            622 => Ok(Keycode::KEY_AUDIO_DESC),
            623 => Ok(Keycode::KEY_3D_MODE),
            624 => Ok(Keycode::KEY_NEXT_FAVORITE),
            625 => Ok(Keycode::KEY_STOP_RECORD),
            626 => Ok(Keycode::KEY_PAUSE_RECORD),
            627 => Ok(Keycode::KEY_VOD),
            628 => Ok(Keycode::KEY_UNMUTE),
            629 => Ok(Keycode::KEY_FASTREVERSE),
            630 => Ok(Keycode::KEY_SLOWREVERSE),
            631 => Ok(Keycode::KEY_DATA),
            632 => Ok(Keycode::KEY_ONSCREEN_KEYBOARD),
            633 => Ok(Keycode::KEY_PRIVACY_SCREEN_TOGGLE),
            634 => Ok(Keycode::KEY_SELECTIVE_SCREENSHOT),
            635 => Ok(Keycode::KEY_NEXT_ELEMENT),
            636 => Ok(Keycode::KEY_PREVIOUS_ELEMENT),
            637 => Ok(Keycode::KEY_AUTOPILOT_ENGAGE_TOGGLE),
            638 => Ok(Keycode::KEY_MARK_WAYPOINT),
            639 => Ok(Keycode::KEY_SOS),
            640 => Ok(Keycode::KEY_NAV_CHART),
            641 => Ok(Keycode::KEY_FISHING_CHART),
            642 => Ok(Keycode::KEY_SINGLE_RANGE_RADAR),
            643 => Ok(Keycode::KEY_DUAL_RANGE_RADAR),
            644 => Ok(Keycode::KEY_RADAR_OVERLAY),
            645 => Ok(Keycode::KEY_TRADITIONAL_SONAR),
            646 => Ok(Keycode::KEY_CLEARVU_SONAR),
            647 => Ok(Keycode::KEY_SIDEVU_SONAR),
            648 => Ok(Keycode::KEY_NAV_INFO),
            649 => Ok(Keycode::KEY_BRIGHTNESS_MENU),
            656 => Ok(Keycode::KEY_MACRO1),
            657 => Ok(Keycode::KEY_MACRO2),
            658 => Ok(Keycode::KEY_MACRO3),
            659 => Ok(Keycode::KEY_MACRO4),
            660 => Ok(Keycode::KEY_MACRO5),
            661 => Ok(Keycode::KEY_MACRO6),
            662 => Ok(Keycode::KEY_MACRO7),
            663 => Ok(Keycode::KEY_MACRO8),
            664 => Ok(Keycode::KEY_MACRO9),
            665 => Ok(Keycode::KEY_MACRO10),
            666 => Ok(Keycode::KEY_MACRO11),
            667 => Ok(Keycode::KEY_MACRO12),
            668 => Ok(Keycode::KEY_MACRO13),
            669 => Ok(Keycode::KEY_MACRO14),
            670 => Ok(Keycode::KEY_MACRO15),
            671 => Ok(Keycode::KEY_MACRO16),
            672 => Ok(Keycode::KEY_MACRO17),
            673 => Ok(Keycode::KEY_MACRO18),
            674 => Ok(Keycode::KEY_MACRO19),
            675 => Ok(Keycode::KEY_MACRO20),
            676 => Ok(Keycode::KEY_MACRO21),
            677 => Ok(Keycode::KEY_MACRO22),
            678 => Ok(Keycode::KEY_MACRO23),
            679 => Ok(Keycode::KEY_MACRO24),
            680 => Ok(Keycode::KEY_MACRO25),
            681 => Ok(Keycode::KEY_MACRO26),
            682 => Ok(Keycode::KEY_MACRO27),
            683 => Ok(Keycode::KEY_MACRO28),
            684 => Ok(Keycode::KEY_MACRO29),
            685 => Ok(Keycode::KEY_MACRO30),
            688 => Ok(Keycode::KEY_MACRO_RECORD_START),
            689 => Ok(Keycode::KEY_MACRO_RECORD_STOP),
            690 => Ok(Keycode::KEY_MACRO_PRESET_CYCLE),
            691 => Ok(Keycode::KEY_MACRO_PRESET1),
            692 => Ok(Keycode::KEY_MACRO_PRESET2),
            693 => Ok(Keycode::KEY_MACRO_PRESET3),
            696 => Ok(Keycode::KEY_KBD_LCD_MENU1),
            697 => Ok(Keycode::KEY_KBD_LCD_MENU2),
            698 => Ok(Keycode::KEY_KBD_LCD_MENU3),
            699 => Ok(Keycode::KEY_KBD_LCD_MENU4),
            700 => Ok(Keycode::KEY_KBD_LCD_MENU5),
            767 => Ok(Keycode::KEY_MAX),
            768 => Ok(Keycode::KEY_CNT),
            _ => Err(()),
        }
    }

    /// The name of the key code, as it is written in the kernel header.
    pub fn name(&self) -> (s: &'static str)
        ensures
            s@ == self.spec_name(),
            s@ == kernel_key_name(self.spec_code()),
    {
        proof {
            lemma_name_is_kernel_name(*self);
        }
        match self {
            Keycode::KEY_RESERVED => "KEY_RESERVED",
            Keycode::KEY_ESC => "KEY_ESC",
            Keycode::KEY_1 => "KEY_1",
            Keycode::KEY_2 => "KEY_2",
            Keycode::KEY_3 => "KEY_3",
            Keycode::KEY_4 => "KEY_4",
            Keycode::KEY_5 => "KEY_5",
            Keycode::KEY_6 => "KEY_6",
            Keycode::KEY_7 => "KEY_7",
            Keycode::KEY_8 => "KEY_8",
            Keycode::KEY_9 => "KEY_9",
            Keycode::KEY_0 => "KEY_0",
            Keycode::KEY_MINUS => "KEY_MINUS",
            Keycode::KEY_EQUAL => "KEY_EQUAL",
            Keycode::KEY_BACKSPACE => "KEY_BACKSPACE",
            Keycode::KEY_TAB => "KEY_TAB",
            Keycode::KEY_Q => "KEY_Q",
            Keycode::KEY_W => "KEY_W",
            Keycode::KEY_E => "KEY_E",
            Keycode::KEY_R => "KEY_R",
            Keycode::KEY_T => "KEY_T",
            Keycode::KEY_Y => "KEY_Y",
            Keycode::KEY_U => "KEY_U",
            Keycode::KEY_I => "KEY_I",
            Keycode::KEY_O => "KEY_O",
            Keycode::KEY_P => "KEY_P",
            Keycode::KEY_LEFTBRACE => "KEY_LEFTBRACE",
            Keycode::KEY_RIGHTBRACE => "KEY_RIGHTBRACE",
            Keycode::KEY_ENTER => "KEY_ENTER",
            Keycode::KEY_LEFTCTRL => "KEY_LEFTCTRL",
            Keycode::KEY_A => "KEY_A",
            Keycode::KEY_S => "KEY_S",
            Keycode::KEY_D => "KEY_D",
            Keycode::KEY_F => "KEY_F",
            Keycode::KEY_G => "KEY_G",
            Keycode::KEY_H => "KEY_H",
            Keycode::KEY_J => "KEY_J",
            Keycode::KEY_K => "KEY_K",
            Keycode::KEY_L => "KEY_L",
            Keycode::KEY_SEMICOLON => "KEY_SEMICOLON",
            Keycode::KEY_APOSTROPHE => "KEY_APOSTROPHE",
            Keycode::KEY_GRAVE => "KEY_GRAVE",
            Keycode::KEY_LEFTSHIFT => "KEY_LEFTSHIFT",
            Keycode::KEY_BACKSLASH => "KEY_BACKSLASH",
            Keycode::KEY_Z => "KEY_Z",
            Keycode::KEY_X => "KEY_X",
            Keycode::KEY_C => "KEY_C",
            Keycode::KEY_V => "KEY_V",
            Keycode::KEY_B => "KEY_B",
            Keycode::KEY_N => "KEY_N",
            Keycode::KEY_M => "KEY_M",
            Keycode::KEY_COMMA => "KEY_COMMA",
            Keycode::KEY_DOT => "KEY_DOT",
            Keycode::KEY_SLASH => "KEY_SLASH",
            Keycode::KEY_RIGHTSHIFT => "KEY_RIGHTSHIFT",
            Keycode::KEY_KPASTERISK => "KEY_KPASTERISK",
            Keycode::KEY_LEFTALT => "KEY_LEFTALT",
            Keycode::KEY_SPACE => "KEY_SPACE",
            Keycode::KEY_CAPSLOCK => "KEY_CAPSLOCK",
            Keycode::KEY_F1 => "KEY_F1",
            Keycode::KEY_F2 => "KEY_F2",
            Keycode::KEY_F3 => "KEY_F3",
            Keycode::KEY_F4 => "KEY_F4",
            Keycode::KEY_F5 => "KEY_F5",
            Keycode::KEY_F6 => "KEY_F6",
            Keycode::KEY_F7 => "KEY_F7",
            Keycode::KEY_F8 => "KEY_F8",
            Keycode::KEY_F9 => "KEY_F9",
            Keycode::KEY_F10 => "KEY_F10",
            Keycode::KEY_NUMLOCK => "KEY_NUMLOCK",
            Keycode::KEY_SCROLLLOCK => "KEY_SCROLLLOCK",
            Keycode::KEY_KP7 => "KEY_KP7",
            Keycode::KEY_KP8 => "KEY_KP8",
            Keycode::KEY_KP9 => "KEY_KP9",
            Keycode::KEY_KPMINUS => "KEY_KPMINUS",
            Keycode::KEY_KP4 => "KEY_KP4",
            Keycode::KEY_KP5 => "KEY_KP5",
            Keycode::KEY_KP6 => "KEY_KP6",
            Keycode::KEY_KPPLUS => "KEY_KPPLUS",
            Keycode::KEY_KP1 => "KEY_KP1",
            Keycode::KEY_KP2 => "KEY_KP2",
            Keycode::KEY_KP3 => "KEY_KP3",
            Keycode::KEY_KP0 => "KEY_KP0",
            Keycode::KEY_KPDOT => "KEY_KPDOT",
            Keycode::KEY_ZENKAKUHANKAKU => "KEY_ZENKAKUHANKAKU",
            Keycode::KEY_102ND => "KEY_102ND",
            Keycode::KEY_F11 => "KEY_F11",
            Keycode::KEY_F12 => "KEY_F12",
            Keycode::KEY_RO => "KEY_RO",
            Keycode::KEY_KATAKANA => "KEY_KATAKANA",
            Keycode::KEY_HIRAGANA => "KEY_HIRAGANA",
            Keycode::KEY_HENKAN => "KEY_HENKAN",
            Keycode::KEY_KATAKANAHIRAGANA => "KEY_KATAKANAHIRAGANA",
            Keycode::KEY_MUHENKAN => "KEY_MUHENKAN",
            Keycode::KEY_KPJPCOMMA => "KEY_KPJPCOMMA",
            Keycode::KEY_KPENTER => "KEY_KPENTER",
            Keycode::KEY_RIGHTCTRL => "KEY_RIGHTCTRL",
            Keycode::KEY_KPSLASH => "KEY_KPSLASH",
            Keycode::KEY_SYSRQ => "KEY_SYSRQ",
            Keycode::KEY_RIGHTALT => "KEY_RIGHTALT",
            Keycode::KEY_LINEFEED => "KEY_LINEFEED",
            Keycode::KEY_HOME => "KEY_HOME",
            Keycode::KEY_UP => "KEY_UP",
            Keycode::KEY_PAGEUP => "KEY_PAGEUP",
            Keycode::KEY_LEFT => "KEY_LEFT",
            Keycode::KEY_RIGHT => "KEY_RIGHT",
            Keycode::KEY_END => "KEY_END",
            Keycode::KEY_DOWN => "KEY_DOWN",
            Keycode::KEY_PAGEDOWN => "KEY_PAGEDOWN",
            Keycode::KEY_INSERT => "KEY_INSERT",
            Keycode::KEY_DELETE => "KEY_DELETE",
            Keycode::KEY_MACRO => "KEY_MACRO",
            Keycode::KEY_MUTE => "KEY_MUTE",
            Keycode::KEY_VOLUMEDOWN => "KEY_VOLUMEDOWN",
            Keycode::KEY_VOLUMEUP => "KEY_VOLUMEUP",
            Keycode::KEY_POWER => "KEY_POWER",
            Keycode::KEY_KPEQUAL => "KEY_KPEQUAL",
            Keycode::KEY_KPPLUSMINUS => "KEY_KPPLUSMINUS",
            Keycode::KEY_PAUSE => "KEY_PAUSE",
            Keycode::KEY_SCALE => "KEY_SCALE",
            Keycode::KEY_KPCOMMA => "KEY_KPCOMMA",
            Keycode::KEY_HANGEUL => "KEY_HANGEUL",
            Keycode::KEY_HANJA => "KEY_HANJA",
            Keycode::KEY_YEN => "KEY_YEN",
            Keycode::KEY_LEFTMETA => "KEY_LEFTMETA",
            Keycode::KEY_RIGHTMETA => "KEY_RIGHTMETA",
            Keycode::KEY_COMPOSE => "KEY_COMPOSE",
            Keycode::KEY_STOP => "KEY_STOP",
            Keycode::KEY_AGAIN => "KEY_AGAIN",
            Keycode::KEY_PROPS => "KEY_PROPS",
            Keycode::KEY_UNDO => "KEY_UNDO",
            Keycode::KEY_FRONT => "KEY_FRONT",
            Keycode::KEY_COPY => "KEY_COPY",
            Keycode::KEY_OPEN => "KEY_OPEN",
            Keycode::KEY_PASTE => "KEY_PASTE",
            Keycode::KEY_FIND => "KEY_FIND",
            Keycode::KEY_CUT => "KEY_CUT",
            Keycode::KEY_HELP => "KEY_HELP",
            Keycode::KEY_MENU => "KEY_MENU",
            Keycode::KEY_CALC => "KEY_CALC",
            Keycode::KEY_SETUP => "KEY_SETUP",
            Keycode::KEY_SLEEP => "KEY_SLEEP",
            Keycode::KEY_WAKEUP => "KEY_WAKEUP",
            Keycode::KEY_FILE => "KEY_FILE",
            Keycode::KEY_SENDFILE => "KEY_SENDFILE",
            Keycode::KEY_DELETEFILE => "KEY_DELETEFILE",
            Keycode::KEY_XFER => "KEY_XFER",
            Keycode::KEY_PROG1 => "KEY_PROG1",
            Keycode::KEY_PROG2 => "KEY_PROG2",
            Keycode::KEY_WWW => "KEY_WWW",
            Keycode::KEY_MSDOS => "KEY_MSDOS",
            Keycode::KEY_COFFEE => "KEY_COFFEE",
            Keycode::KEY_ROTATE_DISPLAY => "KEY_ROTATE_DISPLAY",
            Keycode::KEY_CYCLEWINDOWS => "KEY_CYCLEWINDOWS",
            Keycode::KEY_MAIL => "KEY_MAIL",
            Keycode::KEY_BOOKMARKS => "KEY_BOOKMARKS",
            Keycode::KEY_COMPUTER => "KEY_COMPUTER",
            Keycode::KEY_BACK => "KEY_BACK",
            Keycode::KEY_FORWARD => "KEY_FORWARD",
            Keycode::KEY_CLOSECD => "KEY_CLOSECD",
            Keycode::KEY_EJECTCD => "KEY_EJECTCD",
            Keycode::KEY_EJECTCLOSECD => "KEY_EJECTCLOSECD",
            Keycode::KEY_NEXTSONG => "KEY_NEXTSONG",
            Keycode::KEY_PLAYPAUSE => "KEY_PLAYPAUSE",
            Keycode::KEY_PREVIOUSSONG => "KEY_PREVIOUSSONG",
            Keycode::KEY_STOPCD => "KEY_STOPCD",
            Keycode::KEY_RECORD => "KEY_RECORD",
            Keycode::KEY_REWIND => "KEY_REWIND",
            Keycode::KEY_PHONE => "KEY_PHONE",
            Keycode::KEY_ISO => "KEY_ISO",
            Keycode::KEY_CONFIG => "KEY_CONFIG",
            Keycode::KEY_HOMEPAGE => "KEY_HOMEPAGE",
            Keycode::KEY_REFRESH => "KEY_REFRESH",
            Keycode::KEY_EXIT => "KEY_EXIT",
            Keycode::KEY_MOVE => "KEY_MOVE",
            Keycode::KEY_EDIT => "KEY_EDIT",
            Keycode::KEY_SCROLLUP => "KEY_SCROLLUP",
            Keycode::KEY_SCROLLDOWN => "KEY_SCROLLDOWN",
            Keycode::KEY_KPLEFTPAREN => "KEY_KPLEFTPAREN",
            Keycode::KEY_KPRIGHTPAREN => "KEY_KPRIGHTPAREN",
            Keycode::KEY_NEW => "KEY_NEW",
            Keycode::KEY_REDO => "KEY_REDO",
            Keycode::KEY_F13 => "KEY_F13",
            Keycode::KEY_F14 => "KEY_F14",
            Keycode::KEY_F15 => "KEY_F15",
            Keycode::KEY_F16 => "KEY_F16",
            Keycode::KEY_F17 => "KEY_F17",
            Keycode::KEY_F18 => "KEY_F18",
            Keycode::KEY_F19 => "KEY_F19",
            Keycode::KEY_F20 => "KEY_F20",
            Keycode::KEY_F21 => "KEY_F21",
            Keycode::KEY_F22 => "KEY_F22",
            Keycode::KEY_F23 => "KEY_F23",
            Keycode::KEY_F24 => "KEY_F24",
            Keycode::KEY_PLAYCD => "KEY_PLAYCD",
            Keycode::KEY_PAUSECD => "KEY_PAUSECD",
            Keycode::KEY_PROG3 => "KEY_PROG3",
            Keycode::KEY_PROG4 => "KEY_PROG4",
            Keycode::KEY_ALL_APPLICATIONS => "KEY_ALL_APPLICATIONS",
            Keycode::KEY_SUSPEND => "KEY_SUSPEND",
            Keycode::KEY_CLOSE => "KEY_CLOSE",
            Keycode::KEY_PLAY => "KEY_PLAY",
            Keycode::KEY_FASTFORWARD => "KEY_FASTFORWARD",
            Keycode::KEY_BASSBOOST => "KEY_BASSBOOST",
            Keycode::KEY_PRINT => "KEY_PRINT",
            Keycode::KEY_HP => "KEY_HP",
            Keycode::KEY_CAMERA => "KEY_CAMERA",
            Keycode::KEY_SOUND => "KEY_SOUND",
            Keycode::KEY_QUESTION => "KEY_QUESTION",
            Keycode::KEY_EMAIL => "KEY_EMAIL",
            Keycode::KEY_CHAT => "KEY_CHAT",
            Keycode::KEY_SEARCH => "KEY_SEARCH",
            Keycode::KEY_CONNECT => "KEY_CONNECT",
            Keycode::KEY_FINANCE => "KEY_FINANCE",
            Keycode::KEY_SPORT => "KEY_SPORT",
            Keycode::KEY_SHOP => "KEY_SHOP",
            Keycode::KEY_ALTERASE => "KEY_ALTERASE",
            Keycode::KEY_CANCEL => "KEY_CANCEL",
            Keycode::KEY_BRIGHTNESSDOWN => "KEY_BRIGHTNESSDOWN",
            Keycode::KEY_BRIGHTNESSUP => "KEY_BRIGHTNESSUP",
            Keycode::KEY_MEDIA => "KEY_MEDIA",
            Keycode::KEY_SWITCHVIDEOMODE => "KEY_SWITCHVIDEOMODE",
            Keycode::KEY_KBDILLUMTOGGLE => "KEY_KBDILLUMTOGGLE",
            Keycode::KEY_KBDILLUMDOWN => "KEY_KBDILLUMDOWN",
            Keycode::KEY_KBDILLUMUP => "KEY_KBDILLUMUP",
            Keycode::KEY_SEND => "KEY_SEND",
            Keycode::KEY_REPLY => "KEY_REPLY",
            Keycode::KEY_FORWARDMAIL => "KEY_FORWARDMAIL",
            Keycode::KEY_SAVE => "KEY_SAVE",
            Keycode::KEY_DOCUMENTS => "KEY_DOCUMENTS",
            Keycode::KEY_BATTERY => "KEY_BATTERY",
            Keycode::KEY_BLUETOOTH => "KEY_BLUETOOTH",
            Keycode::KEY_WLAN => "KEY_WLAN",
            Keycode::KEY_UWB => "KEY_UWB",
            Keycode::KEY_UNKNOWN => "KEY_UNKNOWN",
            Keycode::KEY_VIDEO_NEXT => "KEY_VIDEO_NEXT",
            Keycode::KEY_VIDEO_PREV => "KEY_VIDEO_PREV",
            Keycode::KEY_BRIGHTNESS_CYCLE => "KEY_BRIGHTNESS_CYCLE",
            Keycode::KEY_BRIGHTNESS_AUTO => "KEY_BRIGHTNESS_AUTO",
            Keycode::KEY_DISPLAY_OFF => "KEY_DISPLAY_OFF",
            Keycode::KEY_WWAN => "KEY_WWAN",
            Keycode::KEY_RFKILL => "KEY_RFKILL",
            Keycode::KEY_MICMUTE => "KEY_MICMUTE",
            Keycode::KEY_OK => "KEY_OK",
            Keycode::KEY_SELECT => "KEY_SELECT",
            Keycode::KEY_GOTO => "KEY_GOTO",
            Keycode::KEY_CLEAR => "KEY_CLEAR",
            Keycode::KEY_POWER2 => "KEY_POWER2",
            Keycode::KEY_OPTION => "KEY_OPTION",
            Keycode::KEY_INFO => "KEY_INFO",
            Keycode::KEY_TIME => "KEY_TIME",
            Keycode::KEY_VENDOR => "KEY_VENDOR",
            Keycode::KEY_ARCHIVE => "KEY_ARCHIVE",
            Keycode::KEY_PROGRAM => "KEY_PROGRAM",
            Keycode::KEY_CHANNEL => "KEY_CHANNEL",
            Keycode::KEY_FAVORITES => "KEY_FAVORITES",
            Keycode::KEY_EPG => "KEY_EPG",
            Keycode::KEY_PVR => "KEY_PVR",
            Keycode::KEY_MHP => "KEY_MHP",
            Keycode::KEY_LANGUAGE => "KEY_LANGUAGE",
            Keycode::KEY_TITLE => "KEY_TITLE",
            Keycode::KEY_SUBTITLE => "KEY_SUBTITLE",
            Keycode::KEY_ANGLE => "KEY_ANGLE",
            Keycode::KEY_FULL_SCREEN => "KEY_FULL_SCREEN",
            Keycode::KEY_MODE => "KEY_MODE",
            Keycode::KEY_KEYBOARD => "KEY_KEYBOARD",
            Keycode::KEY_ASPECT_RATIO => "KEY_ASPECT_RATIO",
            Keycode::KEY_PC => "KEY_PC",
            Keycode::KEY_TV => "KEY_TV",
            Keycode::KEY_TV2 => "KEY_TV2",
            Keycode::KEY_VCR => "KEY_VCR",
            Keycode::KEY_VCR2 => "KEY_VCR2",
            Keycode::KEY_SAT => "KEY_SAT",
            Keycode::KEY_SAT2 => "KEY_SAT2",
            Keycode::KEY_CD => "KEY_CD",
            Keycode::KEY_TAPE => "KEY_TAPE",
            Keycode::KEY_RADIO => "KEY_RADIO",
            Keycode::KEY_TUNER => "KEY_TUNER",
            Keycode::KEY_PLAYER => "KEY_PLAYER",
            Keycode::KEY_TEXT => "KEY_TEXT",
            Keycode::KEY_DVD => "KEY_DVD",
            Keycode::KEY_AUX => "KEY_AUX",
            Keycode::KEY_MP3 => "KEY_MP3",
            Keycode::KEY_AUDIO => "KEY_AUDIO",
            Keycode::KEY_VIDEO => "KEY_VIDEO",
            Keycode::KEY_DIRECTORY => "KEY_DIRECTORY",
            Keycode::KEY_LIST => "KEY_LIST",
            Keycode::KEY_MEMO => "KEY_MEMO",
            Keycode::KEY_CALENDAR => "KEY_CALENDAR",
            Keycode::KEY_RED => "KEY_RED",
            Keycode::KEY_GREEN => "KEY_GREEN",
            Keycode::KEY_YELLOW => "KEY_YELLOW",
            Keycode::KEY_BLUE => "KEY_BLUE",
            Keycode::KEY_CHANNELUP => "KEY_CHANNELUP",
            Keycode::KEY_CHANNELDOWN => "KEY_CHANNELDOWN",
            Keycode::KEY_FIRST => "KEY_FIRST",
            Keycode::KEY_LAST => "KEY_LAST",
            Keycode::KEY_AB => "KEY_AB",
            Keycode::KEY_NEXT => "KEY_NEXT",
            Keycode::KEY_RESTART => "KEY_RESTART",
            Keycode::KEY_SLOW => "KEY_SLOW",
            Keycode::KEY_SHUFFLE => "KEY_SHUFFLE",
            Keycode::KEY_BREAK => "KEY_BREAK",
            Keycode::KEY_PREVIOUS => "KEY_PREVIOUS",
            Keycode::KEY_DIGITS => "KEY_DIGITS",
            Keycode::KEY_TEEN => "KEY_TEEN",
            Keycode::KEY_TWEN => "KEY_TWEN",
            Keycode::KEY_VIDEOPHONE => "KEY_VIDEOPHONE",
            Keycode::KEY_GAMES => "KEY_GAMES",
            Keycode::KEY_ZOOMIN => "KEY_ZOOMIN",
            Keycode::KEY_ZOOMOUT => "KEY_ZOOMOUT",
            Keycode::KEY_ZOOMRESET => "KEY_ZOOMRESET",
            Keycode::KEY_WORDPROCESSOR => "KEY_WORDPROCESSOR",
            Keycode::KEY_EDITOR => "KEY_EDITOR",
            Keycode::KEY_SPREADSHEET => "KEY_SPREADSHEET",
            Keycode::KEY_GRAPHICSEDITOR => "KEY_GRAPHICSEDITOR",
            Keycode::KEY_PRESENTATION => "KEY_PRESENTATION",
            Keycode::KEY_DATABASE => "KEY_DATABASE",
            Keycode::KEY_NEWS => "KEY_NEWS",
            Keycode::KEY_VOICEMAIL => "KEY_VOICEMAIL",
            Keycode::KEY_ADDRESSBOOK => "KEY_ADDRESSBOOK",
            Keycode::KEY_MESSENGER => "KEY_MESSENGER",
            Keycode::KEY_DISPLAYTOGGLE => "KEY_DISPLAYTOGGLE",
            Keycode::KEY_SPELLCHECK => "KEY_SPELLCHECK",
            Keycode::KEY_LOGOFF => "KEY_LOGOFF",
            Keycode::KEY_DOLLAR => "KEY_DOLLAR",
            Keycode::KEY_EURO => "KEY_EURO",
            Keycode::KEY_FRAMEBACK => "KEY_FRAMEBACK",
            Keycode::KEY_FRAMEFORWARD => "KEY_FRAMEFORWARD",
            Keycode::KEY_CONTEXT_MENU => "KEY_CONTEXT_MENU",
            Keycode::KEY_MEDIA_REPEAT => "KEY_MEDIA_REPEAT",
            Keycode::KEY_10CHANNELSUP => "KEY_10CHANNELSUP",
            Keycode::KEY_10CHANNELSDOWN => "KEY_10CHANNELSDOWN",
            Keycode::KEY_IMAGES => "KEY_IMAGES",
            Keycode::KEY_NOTIFICATION_CENTER => "KEY_NOTIFICATION_CENTER",
            Keycode::KEY_PICKUP_PHONE => "KEY_PICKUP_PHONE",
            Keycode::KEY_HANGUP_PHONE => "KEY_HANGUP_PHONE",
            Keycode::KEY_LINK_PHONE => "KEY_LINK_PHONE",
            Keycode::KEY_DEL_EOL => "KEY_DEL_EOL",
            Keycode::KEY_DEL_EOS => "KEY_DEL_EOS",
            Keycode::KEY_INS_LINE => "KEY_INS_LINE",
            Keycode::KEY_DEL_LINE => "KEY_DEL_LINE",
            Keycode::KEY_FN => "KEY_FN",
            Keycode::KEY_FN_ESC => "KEY_FN_ESC",
            Keycode::KEY_FN_F1 => "KEY_FN_F1",
            Keycode::KEY_FN_F2 => "KEY_FN_F2",
            Keycode::KEY_FN_F3 => "KEY_FN_F3",
            Keycode::KEY_FN_F4 => "KEY_FN_F4",
            Keycode::KEY_FN_F5 => "KEY_FN_F5",
            Keycode::KEY_FN_F6 => "KEY_FN_F6",
            Keycode::KEY_FN_F7 => "KEY_FN_F7",
            Keycode::KEY_FN_F8 => "KEY_FN_F8",
            Keycode::KEY_FN_F9 => "KEY_FN_F9",
            Keycode::KEY_FN_F10 => "KEY_FN_F10",
            Keycode::KEY_FN_F11 => "KEY_FN_F11",
            Keycode::KEY_FN_F12 => "KEY_FN_F12",
            Keycode::KEY_FN_1 => "KEY_FN_1",
            Keycode::KEY_FN_2 => "KEY_FN_2",
            Keycode::KEY_FN_D => "KEY_FN_D",
            Keycode::KEY_FN_E => "KEY_FN_E",
            Keycode::KEY_FN_F => "KEY_FN_F",
            Keycode::KEY_FN_S => "KEY_FN_S",
            Keycode::KEY_FN_B => "KEY_FN_B",
            Keycode::KEY_FN_RIGHT_SHIFT => "KEY_FN_RIGHT_SHIFT",
            Keycode::KEY_BRL_DOT1 => "KEY_BRL_DOT1",
            Keycode::KEY_BRL_DOT2 => "KEY_BRL_DOT2",
            Keycode::KEY_BRL_DOT3 => "KEY_BRL_DOT3",
            Keycode::KEY_BRL_DOT4 => "KEY_BRL_DOT4",
            Keycode::KEY_BRL_DOT5 => "KEY_BRL_DOT5",
            Keycode::KEY_BRL_DOT6 => "KEY_BRL_DOT6",
            Keycode::KEY_BRL_DOT7 => "KEY_BRL_DOT7",
            Keycode::KEY_BRL_DOT8 => "KEY_BRL_DOT8",
            Keycode::KEY_BRL_DOT9 => "KEY_BRL_DOT9",
            Keycode::KEY_BRL_DOT10 => "KEY_BRL_DOT10",
            Keycode::KEY_NUMERIC_0 => "KEY_NUMERIC_0",
            Keycode::KEY_NUMERIC_1 => "KEY_NUMERIC_1",
            Keycode::KEY_NUMERIC_2 => "KEY_NUMERIC_2",
            Keycode::KEY_NUMERIC_3 => "KEY_NUMERIC_3",
            Keycode::KEY_NUMERIC_4 => "KEY_NUMERIC_4",
            Keycode::KEY_NUMERIC_5 => "KEY_NUMERIC_5",
            Keycode::KEY_NUMERIC_6 => "KEY_NUMERIC_6",
            Keycode::KEY_NUMERIC_7 => "KEY_NUMERIC_7",
            Keycode::KEY_NUMERIC_8 => "KEY_NUMERIC_8",
            Keycode::KEY_NUMERIC_9 => "KEY_NUMERIC_9",
            Keycode::KEY_NUMERIC_STAR => "KEY_NUMERIC_STAR",
            Keycode::KEY_NUMERIC_POUND => "KEY_NUMERIC_POUND",
            Keycode::KEY_NUMERIC_A => "KEY_NUMERIC_A",
            Keycode::KEY_NUMERIC_B => "KEY_NUMERIC_B",
            Keycode::KEY_NUMERIC_C => "KEY_NUMERIC_C",
            Keycode::KEY_NUMERIC_D => "KEY_NUMERIC_D",
            Keycode::KEY_CAMERA_FOCUS => "KEY_CAMERA_FOCUS",
            Keycode::KEY_WPS_BUTTON => "KEY_WPS_BUTTON",
            Keycode::KEY_TOUCHPAD_TOGGLE => "KEY_TOUCHPAD_TOGGLE",
            Keycode::KEY_TOUCHPAD_ON => "KEY_TOUCHPAD_ON",
            Keycode::KEY_TOUCHPAD_OFF => "KEY_TOUCHPAD_OFF",
            Keycode::KEY_CAMERA_ZOOMIN => "KEY_CAMERA_ZOOMIN",
            Keycode::KEY_CAMERA_ZOOMOUT => "KEY_CAMERA_ZOOMOUT",
            Keycode::KEY_CAMERA_UP => "KEY_CAMERA_UP",
            Keycode::KEY_CAMERA_DOWN => "KEY_CAMERA_DOWN",
            Keycode::KEY_CAMERA_LEFT => "KEY_CAMERA_LEFT",
            Keycode::KEY_CAMERA_RIGHT => "KEY_CAMERA_RIGHT",
            Keycode::KEY_ATTENDANT_ON => "KEY_ATTENDANT_ON",
            Keycode::KEY_ATTENDANT_OFF => "KEY_ATTENDANT_OFF",
            Keycode::KEY_ATTENDANT_TOGGLE => "KEY_ATTENDANT_TOGGLE",
            Keycode::KEY_LIGHTS_TOGGLE => "KEY_LIGHTS_TOGGLE",
            Keycode::KEY_ALS_TOGGLE => "KEY_ALS_TOGGLE",
            Keycode::KEY_ROTATE_LOCK_TOGGLE => "KEY_ROTATE_LOCK_TOGGLE",
            Keycode::KEY_REFRESH_RATE_TOGGLE => "KEY_REFRESH_RATE_TOGGLE",
            Keycode::KEY_BUTTONCONFIG => "KEY_BUTTONCONFIG",
            Keycode::KEY_TASKMANAGER => "KEY_TASKMANAGER",
            Keycode::KEY_JOURNAL => "KEY_JOURNAL",
            Keycode::KEY_CONTROLPANEL => "KEY_CONTROLPANEL",
            Keycode::KEY_APPSELECT => "KEY_APPSELECT",
            Keycode::KEY_SCREENSAVER => "KEY_SCREENSAVER",
            Keycode::KEY_VOICECOMMAND => "KEY_VOICECOMMAND",
            Keycode::KEY_ASSISTANT => "KEY_ASSISTANT",
            Keycode::KEY_KBD_LAYOUT_NEXT => "KEY_KBD_LAYOUT_NEXT",
            Keycode::KEY_EMOJI_PICKER => "KEY_EMOJI_PICKER",
            Keycode::KEY_DICTATE => "KEY_DICTATE",
            Keycode::KEY_BRIGHTNESS_MIN => "KEY_BRIGHTNESS_MIN",
            Keycode::KEY_BRIGHTNESS_MAX => "KEY_BRIGHTNESS_MAX",
            Keycode::KEY_KBDINPUTASSIST_PREV => "KEY_KBDINPUTASSIST_PREV",
            Keycode::KEY_KBDINPUTASSIST_NEXT => "KEY_KBDINPUTASSIST_NEXT",
            Keycode::KEY_KBDINPUTASSIST_PREVGROUP => "KEY_KBDINPUTASSIST_PREVGROUP",
            Keycode::KEY_KBDINPUTASSIST_NEXTGROUP => "KEY_KBDINPUTASSIST_NEXTGROUP",
            Keycode::KEY_KBDINPUTASSIST_ACCEPT => "KEY_KBDINPUTASSIST_ACCEPT",
            Keycode::KEY_KBDINPUTASSIST_CANCEL => "KEY_KBDINPUTASSIST_CANCEL",
            Keycode::KEY_RIGHT_UP => "KEY_RIGHT_UP",
            Keycode::KEY_RIGHT_DOWN => "KEY_RIGHT_DOWN",
            Keycode::KEY_LEFT_UP => "KEY_LEFT_UP",
            Keycode::KEY_LEFT_DOWN => "KEY_LEFT_DOWN",
            Keycode::KEY_ROOT_MENU => "KEY_ROOT_MENU",
            Keycode::KEY_MEDIA_TOP_MENU => "KEY_MEDIA_TOP_MENU",
            Keycode::KEY_NUMERIC_11 => "KEY_NUMERIC_11",
            Keycode::KEY_NUMERIC_12 => "KEY_NUMERIC_12",
            Keycode::KEY_AUDIO_DESC => "KEY_AUDIO_DESC",
            Keycode::KEY_3D_MODE => "KEY_3D_MODE",
            Keycode::KEY_NEXT_FAVORITE => "KEY_NEXT_FAVORITE",
            Keycode::KEY_STOP_RECORD => "KEY_STOP_RECORD",
            Keycode::KEY_PAUSE_RECORD => "KEY_PAUSE_RECORD",
            Keycode::KEY_VOD => "KEY_VOD",
            Keycode::KEY_UNMUTE => "KEY_UNMUTE",
            Keycode::KEY_FASTREVERSE => "KEY_FASTREVERSE",
            Keycode::KEY_SLOWREVERSE => "KEY_SLOWREVERSE",
            Keycode::KEY_DATA => "KEY_DATA",
            Keycode::KEY_ONSCREEN_KEYBOARD => "KEY_ONSCREEN_KEYBOARD",
            Keycode::KEY_PRIVACY_SCREEN_TOGGLE => "KEY_PRIVACY_SCREEN_TOGGLE",
            Keycode::KEY_SELECTIVE_SCREENSHOT => "KEY_SELECTIVE_SCREENSHOT",
            Keycode::KEY_NEXT_ELEMENT => "KEY_NEXT_ELEMENT",
            Keycode::KEY_PREVIOUS_ELEMENT => "KEY_PREVIOUS_ELEMENT",
            Keycode::KEY_AUTOPILOT_ENGAGE_TOGGLE => "KEY_AUTOPILOT_ENGAGE_TOGGLE",
            Keycode::KEY_MARK_WAYPOINT => "KEY_MARK_WAYPOINT",
            Keycode::KEY_SOS => "KEY_SOS",
            Keycode::KEY_NAV_CHART => "KEY_NAV_CHART",
            Keycode::KEY_FISHING_CHART => "KEY_FISHING_CHART",
            Keycode::KEY_SINGLE_RANGE_RADAR => "KEY_SINGLE_RANGE_RADAR",
            Keycode::KEY_DUAL_RANGE_RADAR => "KEY_DUAL_RANGE_RADAR",
            Keycode::KEY_RADAR_OVERLAY => "KEY_RADAR_OVERLAY",
            Keycode::KEY_TRADITIONAL_SONAR => "KEY_TRADITIONAL_SONAR",
            Keycode::KEY_CLEARVU_SONAR => "KEY_CLEARVU_SONAR",
            Keycode::KEY_SIDEVU_SONAR => "KEY_SIDEVU_SONAR",
            Keycode::KEY_NAV_INFO => "KEY_NAV_INFO",
            Keycode::KEY_BRIGHTNESS_MENU => "KEY_BRIGHTNESS_MENU",
            Keycode::KEY_MACRO1 => "KEY_MACRO1",
            Keycode::KEY_MACRO2 => "KEY_MACRO2",
            Keycode::KEY_MACRO3 => "KEY_MACRO3",
            Keycode::KEY_MACRO4 => "KEY_MACRO4",
            Keycode::KEY_MACRO5 => "KEY_MACRO5",
            Keycode::KEY_MACRO6 => "KEY_MACRO6",
            Keycode::KEY_MACRO7 => "KEY_MACRO7",
            Keycode::KEY_MACRO8 => "KEY_MACRO8",
            Keycode::KEY_MACRO9 => "KEY_MACRO9",
            Keycode::KEY_MACRO10 => "KEY_MACRO10",
            Keycode::KEY_MACRO11 => "KEY_MACRO11",
            Keycode::KEY_MACRO12 => "KEY_MACRO12",
            Keycode::KEY_MACRO13 => "KEY_MACRO13",
            Keycode::KEY_MACRO14 => "KEY_MACRO14",
            Keycode::KEY_MACRO15 => "KEY_MACRO15",
            Keycode::KEY_MACRO16 => "KEY_MACRO16",
            Keycode::KEY_MACRO17 => "KEY_MACRO17",
            Keycode::KEY_MACRO18 => "KEY_MACRO18",
            Keycode::KEY_MACRO19 => "KEY_MACRO19",
            Keycode::KEY_MACRO20 => "KEY_MACRO20",
            Keycode::KEY_MACRO21 => "KEY_MACRO21",
            Keycode::KEY_MACRO22 => "KEY_MACRO22",
            Keycode::KEY_MACRO23 => "KEY_MACRO23",
            Keycode::KEY_MACRO24 => "KEY_MACRO24",
            Keycode::KEY_MACRO25 => "KEY_MACRO25",
            Keycode::KEY_MACRO26 => "KEY_MACRO26",
            Keycode::KEY_MACRO27 => "KEY_MACRO27",
            Keycode::KEY_MACRO28 => "KEY_MACRO28",
            Keycode::KEY_MACRO29 => "KEY_MACRO29",
            Keycode::KEY_MACRO30 => "KEY_MACRO30",
            Keycode::KEY_MACRO_RECORD_START => "KEY_MACRO_RECORD_START",
            Keycode::KEY_MACRO_RECORD_STOP => "KEY_MACRO_RECORD_STOP",
            Keycode::KEY_MACRO_PRESET_CYCLE => "KEY_MACRO_PRESET_CYCLE",
            Keycode::KEY_MACRO_PRESET1 => "KEY_MACRO_PRESET1",
            Keycode::KEY_MACRO_PRESET2 => "KEY_MACRO_PRESET2",
            Keycode::KEY_MACRO_PRESET3 => "KEY_MACRO_PRESET3",
            Keycode::KEY_KBD_LCD_MENU1 => "KEY_KBD_LCD_MENU1",
            Keycode::KEY_KBD_LCD_MENU2 => "KEY_KBD_LCD_MENU2",
            Keycode::KEY_KBD_LCD_MENU3 => "KEY_KBD_LCD_MENU3",
            Keycode::KEY_KBD_LCD_MENU4 => "KEY_KBD_LCD_MENU4",
            Keycode::KEY_KBD_LCD_MENU5 => "KEY_KBD_LCD_MENU5",
            Keycode::KEY_MAX => "KEY_MAX",
            Keycode::KEY_CNT => "KEY_CNT",
        }
    }
}

/// Every key code comes back from its numeric value.
pub proof fn lemma_code_round_trip(k: Keycode)
    ensures
        Keycode::spec_from_code(k.spec_code()) == Some(k),
{
    match k {
        Keycode::KEY_RESERVED => {},
        Keycode::KEY_ESC => {},
        Keycode::KEY_1 => {},
        Keycode::KEY_2 => {},
        Keycode::KEY_3 => {},
        Keycode::KEY_4 => {},
        Keycode::KEY_5 => {},
        Keycode::KEY_6 => {},
        Keycode::KEY_7 => {},
        Keycode::KEY_8 => {},
        Keycode::KEY_9 => {},
        Keycode::KEY_0 => {},
        Keycode::KEY_MINUS => {},
        Keycode::KEY_EQUAL => {},
        Keycode::KEY_BACKSPACE => {},
        Keycode::KEY_TAB => {},
        Keycode::KEY_Q => {},
        Keycode::KEY_W => {},
        Keycode::KEY_E => {},
        Keycode::KEY_R => {},
        Keycode::KEY_T => {},
        Keycode::KEY_Y => {},
        Keycode::KEY_U => {},
        Keycode::KEY_I => {},
        Keycode::KEY_O => {},
        Keycode::KEY_P => {},
        Keycode::KEY_LEFTBRACE => {},
        Keycode::KEY_RIGHTBRACE => {},
        Keycode::KEY_ENTER => {},
        Keycode::KEY_LEFTCTRL => {},
        Keycode::KEY_A => {},
        Keycode::KEY_S => {},
        Keycode::KEY_D => {},
        Keycode::KEY_F => {},
        Keycode::KEY_G => {},
        Keycode::KEY_H => {},
        Keycode::KEY_J => {},
        Keycode::KEY_K => {},
        Keycode::KEY_L => {},
        Keycode::KEY_SEMICOLON => {},
        Keycode::KEY_APOSTROPHE => {},
        Keycode::KEY_GRAVE => {},
        Keycode::KEY_LEFTSHIFT => {},
        Keycode::KEY_BACKSLASH => {},
        Keycode::KEY_Z => {},
        Keycode::KEY_X => {},
        Keycode::KEY_C => {},
        Keycode::KEY_V => {},
        Keycode::KEY_B => {},
        Keycode::KEY_N => {},
        Keycode::KEY_M => {},
        Keycode::KEY_COMMA => {},
        Keycode::KEY_DOT => {},
        Keycode::KEY_SLASH => {},
        Keycode::KEY_RIGHTSHIFT => {},
        Keycode::KEY_KPASTERISK => {},
        Keycode::KEY_LEFTALT => {},
        Keycode::KEY_SPACE => {},
        Keycode::KEY_CAPSLOCK => {},
        Keycode::KEY_F1 => {},
        Keycode::KEY_F2 => {},
        Keycode::KEY_F3 => {},
        Keycode::KEY_F4 => {},
        Keycode::KEY_F5 => {},
        Keycode::KEY_F6 => {},
        Keycode::KEY_F7 => {},
        Keycode::KEY_F8 => {},
        Keycode::KEY_F9 => {},
        Keycode::KEY_F10 => {},
        Keycode::KEY_NUMLOCK => {},
        Keycode::KEY_SCROLLLOCK => {},
        Keycode::KEY_KP7 => {},
        Keycode::KEY_KP8 => {},
        Keycode::KEY_KP9 => {},
        Keycode::KEY_KPMINUS => {},
        Keycode::KEY_KP4 => {},
        Keycode::KEY_KP5 => {},
        Keycode::KEY_KP6 => {},
        Keycode::KEY_KPPLUS => {},
        Keycode::KEY_KP1 => {},
        Keycode::KEY_KP2 => {},
        Keycode::KEY_KP3 => {},
        Keycode::KEY_KP0 => {},
        Keycode::KEY_KPDOT => {},
        Keycode::KEY_ZENKAKUHANKAKU => {},
        Keycode::KEY_102ND => {},
        Keycode::KEY_F11 => {},
        Keycode::KEY_F12 => {},
        Keycode::KEY_RO => {},
        Keycode::KEY_KATAKANA => {},
        Keycode::KEY_HIRAGANA => {},
        Keycode::KEY_HENKAN => {},
        Keycode::KEY_KATAKANAHIRAGANA => {},
        Keycode::KEY_MUHENKAN => {},
        Keycode::KEY_KPJPCOMMA => {},
        Keycode::KEY_KPENTER => {},
        Keycode::KEY_RIGHTCTRL => {},
        Keycode::KEY_KPSLASH => {},
        Keycode::KEY_SYSRQ => {},
        Keycode::KEY_RIGHTALT => {},
        Keycode::KEY_LINEFEED => {},
        Keycode::KEY_HOME => {},
        Keycode::KEY_UP => {},
        Keycode::KEY_PAGEUP => {},
        Keycode::KEY_LEFT => {},
        Keycode::KEY_RIGHT => {},
        Keycode::KEY_END => {},
        Keycode::KEY_DOWN => {},
        Keycode::KEY_PAGEDOWN => {},
        Keycode::KEY_INSERT => {},
        Keycode::KEY_DELETE => {},
        Keycode::KEY_MACRO => {},
        Keycode::KEY_MUTE => {},
        Keycode::KEY_VOLUMEDOWN => {},
        Keycode::KEY_VOLUMEUP => {},
        Keycode::KEY_POWER => {},
        Keycode::KEY_KPEQUAL => {},
        Keycode::KEY_KPPLUSMINUS => {},
        Keycode::KEY_PAUSE => {},
        Keycode::KEY_SCALE => {},
        Keycode::KEY_KPCOMMA => {},
        Keycode::KEY_HANGEUL => {},
        Keycode::KEY_HANJA => {},
        Keycode::KEY_YEN => {},
        Keycode::KEY_LEFTMETA => {},
        Keycode::KEY_RIGHTMETA => {},
        Keycode::KEY_COMPOSE => {},
        Keycode::KEY_STOP => {},
        Keycode::KEY_AGAIN => {},
        Keycode::KEY_PROPS => {},
        Keycode::KEY_UNDO => {},
        Keycode::KEY_FRONT => {},
        Keycode::KEY_COPY => {},
        Keycode::KEY_OPEN => {},
        Keycode::KEY_PASTE => {},
        Keycode::KEY_FIND => {},
        Keycode::KEY_CUT => {},
        Keycode::KEY_HELP => {},
        Keycode::KEY_MENU => {},
        Keycode::KEY_CALC => {},
        Keycode::KEY_SETUP => {},
        Keycode::KEY_SLEEP => {},
        Keycode::KEY_WAKEUP => {},
        Keycode::KEY_FILE => {},
        Keycode::KEY_SENDFILE => {},
        Keycode::KEY_DELETEFILE => {},
        Keycode::KEY_XFER => {},
        Keycode::KEY_PROG1 => {},
        Keycode::KEY_PROG2 => {},
        Keycode::KEY_WWW => {},
        Keycode::KEY_MSDOS => {},
        Keycode::KEY_COFFEE => {},
        Keycode::KEY_ROTATE_DISPLAY => {},
        Keycode::KEY_CYCLEWINDOWS => {},
        Keycode::KEY_MAIL => {},
        Keycode::KEY_BOOKMARKS => {},
        Keycode::KEY_COMPUTER => {},
        Keycode::KEY_BACK => {},
        Keycode::KEY_FORWARD => {},
        Keycode::KEY_CLOSECD => {},
        Keycode::KEY_EJECTCD => {},
        Keycode::KEY_EJECTCLOSECD => {},
        Keycode::KEY_NEXTSONG => {},
        Keycode::KEY_PLAYPAUSE => {},
        Keycode::KEY_PREVIOUSSONG => {},
        Keycode::KEY_STOPCD => {},
        Keycode::KEY_RECORD => {},
        Keycode::KEY_REWIND => {},
        Keycode::KEY_PHONE => {},
        Keycode::KEY_ISO => {},
        Keycode::KEY_CONFIG => {},
        Keycode::KEY_HOMEPAGE => {},
        Keycode::KEY_REFRESH => {},
        Keycode::KEY_EXIT => {},
        Keycode::KEY_MOVE => {},
        Keycode::KEY_EDIT => {},
        Keycode::KEY_SCROLLUP => {},
        Keycode::KEY_SCROLLDOWN => {},
        Keycode::KEY_KPLEFTPAREN => {},
        Keycode::KEY_KPRIGHTPAREN => {},
        Keycode::KEY_NEW => {},
        Keycode::KEY_REDO => {},
        Keycode::KEY_F13 => {},
        Keycode::KEY_F14 => {},
        Keycode::KEY_F15 => {},
        Keycode::KEY_F16 => {},
        Keycode::KEY_F17 => {},
        Keycode::KEY_F18 => {},
        Keycode::KEY_F19 => {},
        Keycode::KEY_F20 => {},
        Keycode::KEY_F21 => {},
        Keycode::KEY_F22 => {},
        Keycode::KEY_F23 => {},
        Keycode::KEY_F24 => {},
        Keycode::KEY_PLAYCD => {},
        Keycode::KEY_PAUSECD => {},
        Keycode::KEY_PROG3 => {},
        Keycode::KEY_PROG4 => {},
        Keycode::KEY_ALL_APPLICATIONS => {},
        Keycode::KEY_SUSPEND => {},
        Keycode::KEY_CLOSE => {},
        Keycode::KEY_PLAY => {},
        Keycode::KEY_FASTFORWARD => {},
        Keycode::KEY_BASSBOOST => {},
        Keycode::KEY_PRINT => {},
        Keycode::KEY_HP => {},
        Keycode::KEY_CAMERA => {},
        Keycode::KEY_SOUND => {},
        Keycode::KEY_QUESTION => {},
        Keycode::KEY_EMAIL => {},
        Keycode::KEY_CHAT => {},
        Keycode::KEY_SEARCH => {},
        Keycode::KEY_CONNECT => {},
        Keycode::KEY_FINANCE => {},
        Keycode::KEY_SPORT => {},
        Keycode::KEY_SHOP => {},
        Keycode::KEY_ALTERASE => {},
        Keycode::KEY_CANCEL => {},
        Keycode::KEY_BRIGHTNESSDOWN => {},
        Keycode::KEY_BRIGHTNESSUP => {},
        Keycode::KEY_MEDIA => {},
        Keycode::KEY_SWITCHVIDEOMODE => {},
        Keycode::KEY_KBDILLUMTOGGLE => {},
        Keycode::KEY_KBDILLUMDOWN => {},
        Keycode::KEY_KBDILLUMUP => {},
        Keycode::KEY_SEND => {},
        Keycode::KEY_REPLY => {},
        Keycode::KEY_FORWARDMAIL => {},
        Keycode::KEY_SAVE => {},
        Keycode::KEY_DOCUMENTS => {},
        Keycode::KEY_BATTERY => {},
        Keycode::KEY_BLUETOOTH => {},
        Keycode::KEY_WLAN => {},
        Keycode::KEY_UWB => {},
        Keycode::KEY_UNKNOWN => {},
        Keycode::KEY_VIDEO_NEXT => {},
        Keycode::KEY_VIDEO_PREV => {},
        Keycode::KEY_BRIGHTNESS_CYCLE => {},
        Keycode::KEY_BRIGHTNESS_AUTO => {},
        Keycode::KEY_DISPLAY_OFF => {},
        Keycode::KEY_WWAN => {},
        Keycode::KEY_RFKILL => {},
        Keycode::KEY_MICMUTE => {},
        Keycode::KEY_OK => {},
        Keycode::KEY_SELECT => {},
        Keycode::KEY_GOTO => {},
        Keycode::KEY_CLEAR => {},
        Keycode::KEY_POWER2 => {},
        Keycode::KEY_OPTION => {},
        Keycode::KEY_INFO => {},
        Keycode::KEY_TIME => {},
        Keycode::KEY_VENDOR => {},
        Keycode::KEY_ARCHIVE => {},
        Keycode::KEY_PROGRAM => {},
        Keycode::KEY_CHANNEL => {},
        Keycode::KEY_FAVORITES => {},
        Keycode::KEY_EPG => {},
        Keycode::KEY_PVR => {},
        Keycode::KEY_MHP => {},
        Keycode::KEY_LANGUAGE => {},
        Keycode::KEY_TITLE => {},
        Keycode::KEY_SUBTITLE => {},
        Keycode::KEY_ANGLE => {},
        Keycode::KEY_FULL_SCREEN => {},
        Keycode::KEY_MODE => {},
        Keycode::KEY_KEYBOARD => {},
        Keycode::KEY_ASPECT_RATIO => {},
        Keycode::KEY_PC => {},
        Keycode::KEY_TV => {},
        Keycode::KEY_TV2 => {},
        Keycode::KEY_VCR => {},
        Keycode::KEY_VCR2 => {},
        Keycode::KEY_SAT => {},
        Keycode::KEY_SAT2 => {},
        Keycode::KEY_CD => {},
        Keycode::KEY_TAPE => {},
        Keycode::KEY_RADIO => {},
        Keycode::KEY_TUNER => {},
        Keycode::KEY_PLAYER => {},
        Keycode::KEY_TEXT => {},
        Keycode::KEY_DVD => {},
        Keycode::KEY_AUX => {},
        Keycode::KEY_MP3 => {},
        Keycode::KEY_AUDIO => {},
        Keycode::KEY_VIDEO => {},
        Keycode::KEY_DIRECTORY => {},
        Keycode::KEY_LIST => {},
        Keycode::KEY_MEMO => {},
        Keycode::KEY_CALENDAR => {},
        Keycode::KEY_RED => {},
        Keycode::KEY_GREEN => {},
        Keycode::KEY_YELLOW => {},
        Keycode::KEY_BLUE => {},
        Keycode::KEY_CHANNELUP => {},
        Keycode::KEY_CHANNELDOWN => {},
        Keycode::KEY_FIRST => {},
        Keycode::KEY_LAST => {},
        Keycode::KEY_AB => {},
        Keycode::KEY_NEXT => {},
        Keycode::KEY_RESTART => {},
        Keycode::KEY_SLOW => {},
        Keycode::KEY_SHUFFLE => {},
        Keycode::KEY_BREAK => {},
        Keycode::KEY_PREVIOUS => {},
        Keycode::KEY_DIGITS => {},
        Keycode::KEY_TEEN => {},
        Keycode::KEY_TWEN => {},
        Keycode::KEY_VIDEOPHONE => {},
        Keycode::KEY_GAMES => {},
        Keycode::KEY_ZOOMIN => {},
        Keycode::KEY_ZOOMOUT => {},
        Keycode::KEY_ZOOMRESET => {},
        Keycode::KEY_WORDPROCESSOR => {},
        Keycode::KEY_EDITOR => {},
        Keycode::KEY_SPREADSHEET => {},
        Keycode::KEY_GRAPHICSEDITOR => {},
        Keycode::KEY_PRESENTATION => {},
        Keycode::KEY_DATABASE => {},
        Keycode::KEY_NEWS => {},
        Keycode::KEY_VOICEMAIL => {},
        Keycode::KEY_ADDRESSBOOK => {},
        Keycode::KEY_MESSENGER => {},
        Keycode::KEY_DISPLAYTOGGLE => {},
        Keycode::KEY_SPELLCHECK => {},
        Keycode::KEY_LOGOFF => {},
        Keycode::KEY_DOLLAR => {},
        Keycode::KEY_EURO => {},
        Keycode::KEY_FRAMEBACK => {},
        Keycode::KEY_FRAMEFORWARD => {},
        Keycode::KEY_CONTEXT_MENU => {},
        Keycode::KEY_MEDIA_REPEAT => {},
        Keycode::KEY_10CHANNELSUP => {},
        Keycode::KEY_10CHANNELSDOWN => {},
        Keycode::KEY_IMAGES => {},
        Keycode::KEY_NOTIFICATION_CENTER => {},
        Keycode::KEY_PICKUP_PHONE => {},
        Keycode::KEY_HANGUP_PHONE => {},
        Keycode::KEY_LINK_PHONE => {},
        Keycode::KEY_DEL_EOL => {},
        Keycode::KEY_DEL_EOS => {},
        Keycode::KEY_INS_LINE => {},
        Keycode::KEY_DEL_LINE => {},
        Keycode::KEY_FN => {},
        Keycode::KEY_FN_ESC => {},
        Keycode::KEY_FN_F1 => {},
        Keycode::KEY_FN_F2 => {},
        Keycode::KEY_FN_F3 => {},
        Keycode::KEY_FN_F4 => {},
        Keycode::KEY_FN_F5 => {},
        Keycode::KEY_FN_F6 => {},
        Keycode::KEY_FN_F7 => {},
        Keycode::KEY_FN_F8 => {},
        Keycode::KEY_FN_F9 => {},
        Keycode::KEY_FN_F10 => {},
        Keycode::KEY_FN_F11 => {},
        Keycode::KEY_FN_F12 => {},
        Keycode::KEY_FN_1 => {},
        Keycode::KEY_FN_2 => {},
        Keycode::KEY_FN_D => {},
        Keycode::KEY_FN_E => {},
        Keycode::KEY_FN_F => {},
        Keycode::KEY_FN_S => {},
        Keycode::KEY_FN_B => {},
        Keycode::KEY_FN_RIGHT_SHIFT => {},
        Keycode::KEY_BRL_DOT1 => {},
        Keycode::KEY_BRL_DOT2 => {},
        Keycode::KEY_BRL_DOT3 => {},
        Keycode::KEY_BRL_DOT4 => {},
        Keycode::KEY_BRL_DOT5 => {},
        Keycode::KEY_BRL_DOT6 => {},
        Keycode::KEY_BRL_DOT7 => {},
        Keycode::KEY_BRL_DOT8 => {},
        Keycode::KEY_BRL_DOT9 => {},
        Keycode::KEY_BRL_DOT10 => {},
        Keycode::KEY_NUMERIC_0 => {},
        Keycode::KEY_NUMERIC_1 => {},
        Keycode::KEY_NUMERIC_2 => {},
        Keycode::KEY_NUMERIC_3 => {},
        Keycode::KEY_NUMERIC_4 => {},
        Keycode::KEY_NUMERIC_5 => {},
        Keycode::KEY_NUMERIC_6 => {},
        Keycode::KEY_NUMERIC_7 => {},
        Keycode::KEY_NUMERIC_8 => {},
        Keycode::KEY_NUMERIC_9 => {},
        Keycode::KEY_NUMERIC_STAR => {},
        Keycode::KEY_NUMERIC_POUND => {},
        Keycode::KEY_NUMERIC_A => {},
        Keycode::KEY_NUMERIC_B => {},
        Keycode::KEY_NUMERIC_C => {},
        Keycode::KEY_NUMERIC_D => {},
        Keycode::KEY_CAMERA_FOCUS => {},
        Keycode::KEY_WPS_BUTTON => {},
        Keycode::KEY_TOUCHPAD_TOGGLE => {},
        Keycode::KEY_TOUCHPAD_ON => {},
        Keycode::KEY_TOUCHPAD_OFF => {},
        Keycode::KEY_CAMERA_ZOOMIN => {},
        Keycode::KEY_CAMERA_ZOOMOUT => {},
        Keycode::KEY_CAMERA_UP => {},
        Keycode::KEY_CAMERA_DOWN => {},
        Keycode::KEY_CAMERA_LEFT => {},
        Keycode::KEY_CAMERA_RIGHT => {},
        Keycode::KEY_ATTENDANT_ON => {},
        Keycode::KEY_ATTENDANT_OFF => {},
        Keycode::KEY_ATTENDANT_TOGGLE => {},
        Keycode::KEY_LIGHTS_TOGGLE => {},
        Keycode::KEY_ALS_TOGGLE => {},
        Keycode::KEY_ROTATE_LOCK_TOGGLE => {},
        Keycode::KEY_REFRESH_RATE_TOGGLE => {},
        Keycode::KEY_BUTTONCONFIG => {},
        Keycode::KEY_TASKMANAGER => {},
        Keycode::KEY_JOURNAL => {},
        Keycode::KEY_CONTROLPANEL => {},
        Keycode::KEY_APPSELECT => {},
        Keycode::KEY_SCREENSAVER => {},
        Keycode::KEY_VOICECOMMAND => {},
        Keycode::KEY_ASSISTANT => {},
        Keycode::KEY_KBD_LAYOUT_NEXT => {},
        Keycode::KEY_EMOJI_PICKER => {},
        Keycode::KEY_DICTATE => {},
        Keycode::KEY_BRIGHTNESS_MIN => {},
        Keycode::KEY_BRIGHTNESS_MAX => {},
        Keycode::KEY_KBDINPUTASSIST_PREV => {},
        Keycode::KEY_KBDINPUTASSIST_NEXT => {},
        Keycode::KEY_KBDINPUTASSIST_PREVGROUP => {},
        Keycode::KEY_KBDINPUTASSIST_NEXTGROUP => {},
        Keycode::KEY_KBDINPUTASSIST_ACCEPT => {},
        Keycode::KEY_KBDINPUTASSIST_CANCEL => {},
        Keycode::KEY_RIGHT_UP => {},
        Keycode::KEY_RIGHT_DOWN => {},
        Keycode::KEY_LEFT_UP => {},
        Keycode::KEY_LEFT_DOWN => {},
        Keycode::KEY_ROOT_MENU => {},
        Keycode::KEY_MEDIA_TOP_MENU => {},
        Keycode::KEY_NUMERIC_11 => {},
        Keycode::KEY_NUMERIC_12 => {},
        Keycode::KEY_AUDIO_DESC => {},
        Keycode::KEY_3D_MODE => {},
        Keycode::KEY_NEXT_FAVORITE => {},
        Keycode::KEY_STOP_RECORD => {},
        Keycode::KEY_PAUSE_RECORD => {},
        Keycode::KEY_VOD => {},
        Keycode::KEY_UNMUTE => {},
        Keycode::KEY_FASTREVERSE => {},
        Keycode::KEY_SLOWREVERSE => {},
        Keycode::KEY_DATA => {},
        Keycode::KEY_ONSCREEN_KEYBOARD => {},
        Keycode::KEY_PRIVACY_SCREEN_TOGGLE => {},
        Keycode::KEY_SELECTIVE_SCREENSHOT => {},
        Keycode::KEY_NEXT_ELEMENT => {},
        Keycode::KEY_PREVIOUS_ELEMENT => {},
        Keycode::KEY_AUTOPILOT_ENGAGE_TOGGLE => {},
        Keycode::KEY_MARK_WAYPOINT => {},
        Keycode::KEY_SOS => {},
        Keycode::KEY_NAV_CHART => {},
        Keycode::KEY_FISHING_CHART => {},
        Keycode::KEY_SINGLE_RANGE_RADAR => {},
        Keycode::KEY_DUAL_RANGE_RADAR => {},
        Keycode::KEY_RADAR_OVERLAY => {},
        Keycode::KEY_TRADITIONAL_SONAR => {},
        Keycode::KEY_CLEARVU_SONAR => {},
        Keycode::KEY_SIDEVU_SONAR => {},
        Keycode::KEY_NAV_INFO => {},
        Keycode::KEY_BRIGHTNESS_MENU => {},
        Keycode::KEY_MACRO1 => {},
        Keycode::KEY_MACRO2 => {},
        Keycode::KEY_MACRO3 => {},
        Keycode::KEY_MACRO4 => {},
        Keycode::KEY_MACRO5 => {},
        Keycode::KEY_MACRO6 => {},
        Keycode::KEY_MACRO7 => {},
        Keycode::KEY_MACRO8 => {},
        Keycode::KEY_MACRO9 => {},
        Keycode::KEY_MACRO10 => {},
        Keycode::KEY_MACRO11 => {},
        Keycode::KEY_MACRO12 => {},
        Keycode::KEY_MACRO13 => {},
        Keycode::KEY_MACRO14 => {},
        Keycode::KEY_MACRO15 => {},
        Keycode::KEY_MACRO16 => {},
        Keycode::KEY_MACRO17 => {},
        Keycode::KEY_MACRO18 => {},
        Keycode::KEY_MACRO19 => {},
        Keycode::KEY_MACRO20 => {},
        Keycode::KEY_MACRO21 => {},
        Keycode::KEY_MACRO22 => {},
        Keycode::KEY_MACRO23 => {},
        Keycode::KEY_MACRO24 => {},
        Keycode::KEY_MACRO25 => {},
        Keycode::KEY_MACRO26 => {},
        Keycode::KEY_MACRO27 => {},
        Keycode::KEY_MACRO28 => {},
        Keycode::KEY_MACRO29 => {},
        Keycode::KEY_MACRO30 => {},
        Keycode::KEY_MACRO_RECORD_START => {},
        Keycode::KEY_MACRO_RECORD_STOP => {},
        Keycode::KEY_MACRO_PRESET_CYCLE => {},
        Keycode::KEY_MACRO_PRESET1 => {},
        Keycode::KEY_MACRO_PRESET2 => {},
        Keycode::KEY_MACRO_PRESET3 => {},
        Keycode::KEY_KBD_LCD_MENU1 => {},
        Keycode::KEY_KBD_LCD_MENU2 => {},
        Keycode::KEY_KBD_LCD_MENU3 => {},
        Keycode::KEY_KBD_LCD_MENU4 => {},
        Keycode::KEY_KBD_LCD_MENU5 => {},
        Keycode::KEY_MAX => {},
        Keycode::KEY_CNT => {},
    }
}

proof fn lemma_from_code_sound_0(value: u16)
    requires
        0 <= value < 15,
    ensures
        Keycode::spec_from_code(value) matches Some(k) ==> k.spec_code() == value,
{
    if value < 7 {
        if value < 3 {
            if value < 1 {
                if value == 0 {
                    assert(Keycode::spec_from_code(value) == Some(Keycode::KEY_RESERVED));
                }
            } else {
                if value < 2 {
                    if value == 1 {
                        assert(Keycode::spec_from_code(value) == Some(Keycode::KEY_ESC));
                    }
                } else {
                    if value == 2 {
                        assert(Keycode::spec_from_code(value) == Some(Keycode::KEY_1));
                    }
                }
            }
        } else {
            if value < 5 {
                if value < 4 {
                    if value == 3 {
                        assert(Keycode::spec_from_code(value) == Some(Keycode::KEY_2));
                    }
                } else {
                    if value == 4 {
                        assert(Keycode::spec_from_code(value) == Some(Keycode::KEY_3));
                    }
                }
            } else {
                if value < 6 {
                    if value == 5 {
                        assert(Keycode::spec_from_code(value) == Some(Keycode::KEY_4));
                    }
                } else {
                    if value == 6 {
                        assert(Keycode::spec_from_code(value) == Some(Keycode::KEY_5));
                    }
                }
            }
        }
    } else {
        if value < 11 {
            if value < 9 {
                if value < 8 {
                    if value == 7 {
                        assert(Keycode::spec_from_code(value) == Some(Keycode::KEY_6));
                    }
                } else {
                    if value == 8 {
                        assert(Keycode::spec_from_code(value) == Some(Keycode::KEY_7));
                    }
                }
            } else {
                if value < 10 {
                    if value == 9 {
                        assert(Keycode::spec_from_code(value) == Some(Keycode::KEY_8));
                    }
                } else {
                    if value == 10 {
                        assert(Keycode::spec_from_code(value) == Some(Keycode::KEY_9));
                    }
                }
            }
        } else {
            if value < 13 {
                if value < 12 {
                    if value == 11 {
                        assert(Keycode::spec_from_code(value) == Some(Keycode::KEY_0));
                    }
                } else {
                    if value == 12 {
                        assert(Keycode::spec_from_code(value) == Some(Keycode::KEY_MINUS));
                    }
                }
            } else {
                if value < 14 {
                    if value == 13 {
                        assert(Keycode::spec_from_code(value) == Some(Keycode::KEY_EQUAL));
                    }
                } else {
                    if value == 14 {
                        assert(Keycode::spec_from_code(value) == Some(Keycode::KEY_BACKSPACE));
                    }
                }
            }
        }
    }
}

proof fn lemma_from_code_sound_1(value: u16)
    requires
        15 <= value < 31,
    ensures
        Keycode::spec_from_code(value) matches Some(k) ==> k.spec_code() == value,
{
    if value < 23 {
        if value < 19 {
            if value < 17 {
                if value < 16 {
                    if value == 15 {
                        assert(Keycode::spec_from_code(value) == Some(Keycode::KEY_TAB));
                    }
                } else {
                    if value == 16 {
                        assert(Keycode::spec_from_code(value) == Some(Keycode::KEY_Q));
                    }
                }
            } else {
                if value < 18 {
                    if value == 17 {
                        assert(Keycode::spec_from_code(value) == Some(Keycode::KEY_W));
                    }
                } else {
                    if value == 18 {
                        assert(Keycode::spec_from_code(value) == Some(Keycode::KEY_E));
                    }
                }
            }
        } else {
            if value < 21 {
                if value < 20 {
                    if value == 19 {
                        assert(Keycode::spec_from_code(value) == Some(Keycode::KEY_R));
                    }
                } else {
                    if value == 20 {
                        assert(Keycode::spec_from_code(value) == Some(Keycode::KEY_T));
                    }
                }
            } else {
                if value < 22 {
                    if value == 21 {
                        assert(Keycode::spec_from_code(value) == Some(Keycode::KEY_Y));
                    }
                } else {
                    if value == 22 {
                        assert(Keycode::spec_from_code(value) == Some(Keycode::KEY_U));
                    }
                }
            }
        }
    } else {
        if value < 27 {
            if value < 25 {
                if value < 24 {
                    if value == 23 {
                        assert(Keycode::spec_from_code(value) == Some(Keycode::KEY_I));
                    }
                } else {
                    if value == 24 {
                        assert(Keycode::spec_from_code(value) == Some(Keycode::KEY_O));
                    }
                }
            } else {
                if value < 26 {
                    if value == 25 {
                        assert(Keycode::spec_from_code(value) == Some(Keycode::KEY_P));
                    }
                } else {
                    if value == 26 {
                        assert(Keycode::spec_from_code(value) == Some(Keycode::KEY_LEFTBRACE));
                    }
                }
            }
        } else {
            if value < 29 {
                if value < 28 {
                    if value == 27 {
                        assert(Keycode::spec_from_code(value) == Some(Keycode::KEY_RIGHTBRACE));
                    }
                } else {
                    if value == 28 {
                        assert(Keycode::spec_from_code(value) == Some(Keycode::KEY_ENTER));
                    }
                }
            } else {
                if value < 30 {
                    if value == 29 {
                        assert(Keycode::spec_from_code(value) == Some(Keycode::KEY_LEFTCTRL));
                    }
                } else {
                    if value == 30 {
                        assert(Keycode::spec_from_code(value) == Some(Keycode::KEY_A));
                    }
                }
            }
        }
    }
}

proof fn lemma_from_code_sound_2(value: u16)
    requires
        31 <= value < 47,
    ensures
        Keycode::spec_from_code(value) matches Some(k) ==> k.spec_code() == value,
{
    if value < 39 {
        if value < 35 {
            if value < 33 {
                if value < 32 {
                    if value == 31 {
                        assert(Keycode::spec_from_code(value) == Some(Keycode::KEY_S));
                    }
                } else {
                    if value == 32 {
                        assert(Keycode::spec_from_code(value) == Some(Keycode::KEY_D));
                    }
                }
            } else {
                if value < 34 {
                    if value == 33 {
                        assert(Keycode::spec_from_code(value) == Some(Keycode::KEY_F));
                    }
                } else {
                    if value == 34 {
                        assert(Keycode::spec_from_code(value) == Some(Keycode::KEY_G));
                    }
                }
            }
        } else {
            if value < 37 {
                if value < 36 {
                    if value == 35 {
                        assert(Keycode::spec_from_code(value) == Some(Keycode::KEY_H));
                    }
                } else {
                    if value == 36 {
                        assert(Keycode::spec_from_code(value) == Some(Keycode::KEY_J));
                    }
                }
            } else {
                if value < 38 {
                    if value == 37 {
                        assert(Keycode::spec_from_code(value) == Some(Keycode::KEY_K));
                    }
                } else {
                    if value == 38 {
                        assert(Keycode::spec_from_code(value) == Some(Keycode::KEY_L));
                    }
                }
            }
        }
    } else {
        if value < 43 {
            if value < 41 {
                if value < 40 {
                    if value == 39 {
                        assert(Keycode::spec_from_code(value) == Some(Keycode::KEY_SEMICOLON));
                    }
                } else {
                    if value == 40 {
                        assert(Keycode::spec_from_code(value) == Some(Keycode::KEY_APOSTROPHE));
                    }
                }
            } else {
                if value < 42 {
                    if value == 41 {
                        assert(Keycode::spec_from_code(value) == Some(Keycode::KEY_GRAVE));
                    }
                } else {
                    if value == 42 {
                        assert(Keycode::spec_from_code(value) == Some(Keycode::KEY_LEFTSHIFT));
                    }
                }
            }
        } else {
            if value < 45 {
                if value < 44 {
                    if value == 43 {
                        assert(Keycode::spec_from_code(value) == Some(Keycode::KEY_BACKSLASH));
                    }
                } else {
                    if value == 44 {
                        assert(Keycode::spec_from_code(value) == Some(Keycode::KEY_Z));
                    }
                }
            } else {
                if value < 46 {
                    if value == 45 {
                        assert(Keycode::spec_from_code(value) == Some(Keycode::KEY_X));
                    }
                } else {
                    if value == 46 {
                        assert(Keycode::spec_from_code(value) == Some(Keycode::KEY_C));
                    }
                }
            }
        }
    }
}

proof fn lemma_from_code_sound_3(value: u16)
    requires
        47 <= value < 63,
    ensures
        Keycode::spec_from_code(value) matches Some(k) ==> k.spec_code() == value,
{
    if value < 55 {
        if value < 51 {
            if value < 49 {
                if value < 48 {
                    if value == 47 {
                        assert(Keycode::spec_from_code(value) == Some(Keycode::KEY_V));
                    }
                } else {
                    if value == 48 {
                        assert(Keycode::spec_from_code(value) == Some(Keycode::KEY_B));
                    }
                }
            } else {
                if value < 50 {
                    if value == 49 {
                        assert(Keycode::spec_from_code(value) == Some(Keycode::KEY_N));
                    }
                } else {
                    if value == 50 {
                        assert(Keycode::spec_from_code(value) == Some(Keycode::KEY_M));
                    }
                }
            }
        } else {
            if value < 53 {
                if value < 52 {
                    if value == 51 {
                        assert(Keycode::spec_from_code(value) == Some(Keycode::KEY_COMMA));
                    }
                } else {
                    if value == 52 {
                        assert(Keycode::spec_from_code(value) == Some(Keycode::KEY_DOT));
                    }
                }
            } else {
                if value < 54 {
                    if value == 53 {
                        assert(Keycode::spec_from_code(value) == Some(Keycode::KEY_SLASH));
                    }
                } else {
                    if value == 54 {
                        assert(Keycode::spec_from_code(value) == Some(Keycode::KEY_RIGHTSHIFT));
                    }
                }
            }
        }
    } else {
        if value < 59 {
            if value < 57 {
                if value < 56 {
                    if value == 55 {
                        assert(Keycode::spec_from_code(value) == Some(Keycode::KEY_KPASTERISK));
                    }
                } else {
                    if value == 56 {
                        assert(Keycode::spec_from_code(value) == Some(Keycode::KEY_LEFTALT));
                    }
                }
            } else {
                if value < 58 {
                    if value == 57 {
                        assert(Keycode::spec_from_code(value) == Some(Keycode::KEY_SPACE));
                    }
                } else {
                    if value == 58 {
                        assert(Keycode::spec_from_code(value) == Some(Keycode::KEY_CAPSLOCK));
                    }
                }
            }
        } else {
            if value < 61 {
                if value < 60 {
                    if value == 59 {
                        assert(Keycode::spec_from_code(value) == Some(Keycode::KEY_F1));
                    }
                } else {
                    if value == 60 {
                        assert(Keycode::spec_from_code(value) == Some(Keycode::KEY_F2));
                    }
                }
            } else {
                if value < 62 {
                    if value == 61 {
                        assert(Keycode::spec_from_code(value) == Some(Keycode::KEY_F3));
                    }
                } else {
                    if value == 62 {
                        assert(Keycode::spec_from_code(value) == Some(Keycode::KEY_F4));
                    }
                }
            }
        }
    }
}

proof fn lemma_from_code_sound_4(value: u16)
    requires
        63 <= value < 78,
    ensures
        Keycode::spec_from_code(value) matches Some(k) ==> k.spec_code() == value,
{
    if value < 70 {
        if value < 66 {
            if value < 64 {
                if value == 63 {
                    assert(Keycode::spec_from_code(value) == Some(Keycode::KEY_F5));
                }
            } else {
                if value < 65 {
                    if value == 64 {
                        assert(Keycode::spec_from_code(value) == Some(Keycode::KEY_F6));
                    }
                } else {
                    if value == 65 {
                        assert(Keycode::spec_from_code(value) == Some(Keycode::KEY_F7));
                    }
                }
            }
        } else {
            if value < 68 {
                if value < 67 {
                    if value == 66 {
                        assert(Keycode::spec_from_code(value) == Some(Keycode::KEY_F8));
                    }
                } else {
                    if value == 67 {
                        assert(Keycode::spec_from_code(value) == Some(Keycode::KEY_F9));
                    }
                }
            } else {
                if value < 69 {
                    if value == 68 {
                        assert(Keycode::spec_from_code(value) == Some(Keycode::KEY_F10));
                    }
                } else {
                    if value == 69 {
                        assert(Keycode::spec_from_code(value) == Some(Keycode::KEY_NUMLOCK));
                    }
                }
            }
        }
    } else {
        if value < 74 {
            if value < 72 {
                if value < 71 {
                    if value == 70 {
                        assert(Keycode::spec_from_code(value) == Some(Keycode::KEY_SCROLLLOCK));
                    }
                } else {
                    if value == 71 {
                        assert(Keycode::spec_from_code(value) == Some(Keycode::KEY_KP7));
                    }
                }
            } else {
                if value < 73 {
                    if value == 72 {
                        assert(Keycode::spec_from_code(value) == Some(Keycode::KEY_KP8));
                    }
                } else {
                    if value == 73 {
                        assert(Keycode::spec_from_code(value) == Some(Keycode::KEY_KP9));
                    }
                }
            }
        } else {
            if value < 76 {
                if value < 75 {
                    if value == 74 {
                        assert(Keycode::spec_from_code(value) == Some(Keycode::KEY_KPMINUS));
                    }
                } else {
                    if value == 75 {
                        assert(Keycode::spec_from_code(value) == Some(Keycode::KEY_KP4));
                    }
                }
            } else {
                if value < 77 {
                    if value == 76 {
                        assert(Keycode::spec_from_code(value) == Some(Keycode::KEY_KP5));
                    }
                } else {
                    if value == 77 {
                        assert(Keycode::spec_from_code(value) == Some(Keycode::KEY_KP6));
                    }
                }
            }
        }
    }
}

proof fn lemma_from_code_sound_5(value: u16)
    requires
        78 <= value < 95,
    ensures
        Keycode::spec_from_code(value) matches Some(k) ==> k.spec_code() == value,
{
    if value < 87 {
        if value < 82 {
            if value < 80 {
                if value < 79 {
                    if value == 78 {
                        assert(Keycode::spec_from_code(value) == Some(Keycode::KEY_KPPLUS));
                    }
                } else {
                    if value == 79 {
                        assert(Keycode::spec_from_code(value) == Some(Keycode::KEY_KP1));
                    }
                }
            } else {
                if value < 81 {
                    if value == 80 {
                        assert(Keycode::spec_from_code(value) == Some(Keycode::KEY_KP2));
                    }
                } else {
                    if value == 81 {
                        assert(Keycode::spec_from_code(value) == Some(Keycode::KEY_KP3));
                    }
                }
            }
        } else {
            if value < 85 {
                if value < 83 {
                    if value == 82 {
                        assert(Keycode::spec_from_code(value) == Some(Keycode::KEY_KP0));
                    }
                } else {
                    if value == 83 {
                        assert(Keycode::spec_from_code(value) == Some(Keycode::KEY_KPDOT));
                    }
                }
            } else {
                if value < 86 {
                    if value == 85 {
                        assert(Keycode::spec_from_code(value) == Some(Keycode::KEY_ZENKAKUHANKAKU));
                    }
                } else {
                    if value == 86 {
                        assert(Keycode::spec_from_code(value) == Some(Keycode::KEY_102ND));
                    }
                }
            }
        }
    } else {
        if value < 91 {
            if value < 89 {
                if value < 88 {
                    if value == 87 {
                        assert(Keycode::spec_from_code(value) == Some(Keycode::KEY_F11));
                    }
                } else {
                    if value == 88 {
                        assert(Keycode::spec_from_code(value) == Some(Keycode::KEY_F12));
                    }
                }
            } else {
                if value < 90 {
                    if value == 89 {
                        assert(Keycode::spec_from_code(value) == Some(Keycode::KEY_RO));
                    }
                } else {
                    if value == 90 {
                        assert(Keycode::spec_from_code(value) == Some(Keycode::KEY_KATAKANA));
                    }
                }
            }
        } else {
            if value < 93 {
                if value < 92 {
                    if value == 91 {
                        assert(Keycode::spec_from_code(value) == Some(Keycode::KEY_HIRAGANA));
                    }
                } else {
                    if value == 92 {
                        assert(Keycode::spec_from_code(value) == Some(Keycode::KEY_HENKAN));
                    }
                }
            } else {
                if value < 94 {
                    if value == 93 {
                        assert(Keycode::spec_from_code(value) == Some(Keycode::KEY_KATAKANAHIRAGANA));
                    }
                } else {
                    if value == 94 {
                        assert(Keycode::spec_from_code(value) == Some(Keycode::KEY_MUHENKAN));
                    }
                }
            }
        }
    }
}

proof fn lemma_from_code_sound_6(value: u16)
    requires
        95 <= value < 111,
    ensures
        Keycode::spec_from_code(value) matches Some(k) ==> k.spec_code() == value,
{
    if value < 103 {
        if value < 99 {
            if value < 97 {
                if value < 96 {
                    if value == 95 {
                        assert(Keycode::spec_from_code(value) == Some(Keycode::KEY_KPJPCOMMA));
                    }
                } else {
                    if value == 96 {
                        assert(Keycode::spec_from_code(value) == Some(Keycode::KEY_KPENTER));
                    }
                }
            } else {
                if value < 98 {
                    if value == 97 {
                        assert(Keycode::spec_from_code(value) == Some(Keycode::KEY_RIGHTCTRL));
                    }
                } else {
                    if value == 98 {
                        assert(Keycode::spec_from_code(value) == Some(Keycode::KEY_KPSLASH));
                    }
                }
            }
        } else {
            if value < 101 {
                if value < 100 {
                    if value == 99 {
                        assert(Keycode::spec_from_code(value) == Some(Keycode::KEY_SYSRQ));
                    }
                } else {
                    if value == 100 {
                        assert(Keycode::spec_from_code(value) == Some(Keycode::KEY_RIGHTALT));
                    }
                }
            } else {
                if value < 102 {
                    if value == 101 {
                        assert(Keycode::spec_from_code(value) == Some(Keycode::KEY_LINEFEED));
                    }
                } else {
                    if value == 102 {
                        assert(Keycode::spec_from_code(value) == Some(Keycode::KEY_HOME));
                    }
                }
            }
        }
    } else {
        if value < 107 {
            if value < 105 {
                if value < 104 {
                    if value == 103 {
                        assert(Keycode::spec_from_code(value) == Some(Keycode::KEY_UP));
                    }
                } else {
                    if value == 104 {
                        assert(Keycode::spec_from_code(value) == Some(Keycode::KEY_PAGEUP));
                    }
                }
            } else {
                if value < 106 {
                    if value == 105 {
                        assert(Keycode::spec_from_code(value) == Some(Keycode::KEY_LEFT));
                    }
                } else {
                    if value == 106 {
                        assert(Keycode::spec_from_code(value) == Some(Keycode::KEY_RIGHT));
                    }
                }
            }
        } else {
            if value < 109 {
                if value < 108 {
                    if value == 107 {
                        assert(Keycode::spec_from_code(value) == Some(Keycode::KEY_END));
                    }
                } else {
                    if value == 108 {
                        assert(Keycode::spec_from_code(value) == Some(Keycode::KEY_DOWN));
                    }
                }
            } else {
                if value < 110 {
                    if value == 109 {
                        assert(Keycode::spec_from_code(value) == Some(Keycode::KEY_PAGEDOWN));
                    }
                } else {
                    if value == 110 {
                        assert(Keycode::spec_from_code(value) == Some(Keycode::KEY_INSERT));
                    }
                }
            }
        }
    }
}

proof fn lemma_from_code_sound_7(value: u16)
    requires
        111 <= value < 127,
    ensures
        Keycode::spec_from_code(value) matches Some(k) ==> k.spec_code() == value,
{
    if value < 119 {
        if value < 115 {
            if value < 113 {
                if value < 112 {
                    if value == 111 {
                        assert(Keycode::spec_from_code(value) == Some(Keycode::KEY_DELETE));
                    }
                } else {
                    if value == 112 {
                        assert(Keycode::spec_from_code(value) == Some(Keycode::KEY_MACRO));
                    }
                }
            } else {
                if value < 114 {
                    if value == 113 {
                        assert(Keycode::spec_from_code(value) == Some(Keycode::KEY_MUTE));
                    }
                } else {
                    if value == 114 {
                        assert(Keycode::spec_from_code(value) == Some(Keycode::KEY_VOLUMEDOWN));
                    }
                }
            }
        } else {
            if value < 117 {
                if value < 116 {
                    if value == 115 {
                        assert(Keycode::spec_from_code(value) == Some(Keycode::KEY_VOLUMEUP));
                    }
                } else {
                    if value == 116 {
                        assert(Keycode::spec_from_code(value) == Some(Keycode::KEY_POWER));
                    }
                }
            } else {
                if value < 118 {
                    if value == 117 {
                        assert(Keycode::spec_from_code(value) == Some(Keycode::KEY_KPEQUAL));
                    }
                } else {
                    if value == 118 {
                        assert(Keycode::spec_from_code(value) == Some(Keycode::KEY_KPPLUSMINUS));
                    }
                }
            }
        }
    } else {
        if value < 123 {
            if value < 121 {
                if value < 120 {
                    if value == 119 {
                        assert(Keycode::spec_from_code(value) == Some(Keycode::KEY_PAUSE));
                    }
                } else {
                    if value == 120 {
                        assert(Keycode::spec_from_code(value) == Some(Keycode::KEY_SCALE));
                    }
                }
            } else {
                if value < 122 {
                    if value == 121 {
                        assert(Keycode::spec_from_code(value) == Some(Keycode::KEY_KPCOMMA));
                    }
                } else {
                    if value == 122 {
                        assert(Keycode::spec_from_code(value) == Some(Keycode::KEY_HANGEUL));
                    }
                }
            }
        } else {
            if value < 125 {
                if value < 124 {
                    if value == 123 {
                        assert(Keycode::spec_from_code(value) == Some(Keycode::KEY_HANJA));
                    }
                } else {
                    if value == 124 {
                        assert(Keycode::spec_from_code(value) == Some(Keycode::KEY_YEN));
                    }
                }
            } else {
                if value < 126 {
                    if value == 125 {
                        assert(Keycode::spec_from_code(value) == Some(Keycode::KEY_LEFTMETA));
                    }
                } else {
                    if value == 126 {
                        assert(Keycode::spec_from_code(value) == Some(Keycode::KEY_RIGHTMETA));
                    }
                }
            }
        }
    }
}

proof fn lemma_from_code_sound_8(value: u16)
    requires
        127 <= value < 142,
    ensures
        Keycode::spec_from_code(value) matches Some(k) ==> k.spec_code() == value,
{
    if value < 134 {
        if value < 130 {
            if value < 128 {
                if value == 127 {
                    assert(Keycode::spec_from_code(value) == Some(Keycode::KEY_COMPOSE));
                }
            } else {
                if value < 129 {
                    if value == 128 {
                        assert(Keycode::spec_from_code(value) == Some(Keycode::KEY_STOP));
                    }
                } else {
                    if value == 129 {
                        assert(Keycode::spec_from_code(value) == Some(Keycode::KEY_AGAIN));
                    }
                }
            }
        } else {
            if value < 132 {
                if value < 131 {
                    if value == 130 {
                        assert(Keycode::spec_from_code(value) == Some(Keycode::KEY_PROPS));
                    }
                } else {
                    if value == 131 {
                        assert(Keycode::spec_from_code(value) == Some(Keycode::KEY_UNDO));
                    }
                }
            } else {
                if value < 133 {
                    if value == 132 {
                        assert(Keycode::spec_from_code(value) == Some(Keycode::KEY_FRONT));
                    }
                } else {
                    if value == 133 {
                        assert(Keycode::spec_from_code(value) == Some(Keycode::KEY_COPY));
                    }
                }
            }
        }
    } else {
        if value < 138 {
            if value < 136 {
                if value < 135 {
                    if value == 134 {
                        assert(Keycode::spec_from_code(value) == Some(Keycode::KEY_OPEN));
                    }
                } else {
                    if value == 135 {
                        assert(Keycode::spec_from_code(value) == Some(Keycode::KEY_PASTE));
                    }
                }
            } else {
                if value < 137 {
                    if value == 136 {
                        assert(Keycode::spec_from_code(value) == Some(Keycode::KEY_FIND));
                    }
                } else {
                    if value == 137 {
                        assert(Keycode::spec_from_code(value) == Some(Keycode::KEY_CUT));
                    }
                }
            }
        } else {
            if value < 140 {
                if value < 139 {
                    if value == 138 {
                        assert(Keycode::spec_from_code(value) == Some(Keycode::KEY_HELP));
                    }
                } else {
                    if value == 139 {
                        assert(Keycode::spec_from_code(value) == Some(Keycode::KEY_MENU));
                    }
                }
            } else {
                if value < 141 {
                    if value == 140 {
                        assert(Keycode::spec_from_code(value) == Some(Keycode::KEY_CALC));
                    }
                } else {
                    if value == 141 {
                        assert(Keycode::spec_from_code(value) == Some(Keycode::KEY_SETUP));
                    }
                }
            }
        }
    }
}

proof fn lemma_from_code_sound_9(value: u16)
    requires
        142 <= value < 158,
    ensures
        Keycode::spec_from_code(value) matches Some(k) ==> k.spec_code() == value,
{
    if value < 150 {
        if value < 146 {
            if value < 144 {
                if value < 143 {
                    if value == 142 {
                        assert(Keycode::spec_from_code(value) == Some(Keycode::KEY_SLEEP));
                    }
                } else {
                    if value == 143 {
                        assert(Keycode::spec_from_code(value) == Some(Keycode::KEY_WAKEUP));
                    }
                }
            } else {
                if value < 145 {
                    if value == 144 {
                        assert(Keycode::spec_from_code(value) == Some(Keycode::KEY_FILE));
                    }
                } else {
                    if value == 145 {
                        assert(Keycode::spec_from_code(value) == Some(Keycode::KEY_SENDFILE));
                    }
                }
            }
        } else {
            if value < 148 {
                if value < 147 {
                    if value == 146 {
                        assert(Keycode::spec_from_code(value) == Some(Keycode::KEY_DELETEFILE));
                    }
                } else {
                    if value == 147 {
                        assert(Keycode::spec_from_code(value) == Some(Keycode::KEY_XFER));
                    }
                }
            } else {
                if value < 149 {
                    if value == 148 {
                        assert(Keycode::spec_from_code(value) == Some(Keycode::KEY_PROG1));
                    }
                } else {
                    if value == 149 {
                        assert(Keycode::spec_from_code(value) == Some(Keycode::KEY_PROG2));
                    }
                }
            }
        }
    } else {
        if value < 154 {
            if value < 152 {
                if value < 151 {
                    if value == 150 {
                        assert(Keycode::spec_from_code(value) == Some(Keycode::KEY_WWW));
                    }
                } else {
                    if value == 151 {
                        assert(Keycode::spec_from_code(value) == Some(Keycode::KEY_MSDOS));
                    }
                }
            } else {
                if value < 153 {
                    if value == 152 {
                        assert(Keycode::spec_from_code(value) == Some(Keycode::KEY_COFFEE));
                    }
                } else {
                    if value == 153 {
                        assert(Keycode::spec_from_code(value) == Some(Keycode::KEY_ROTATE_DISPLAY));
                    }
                }
            }
        } else {
            if value < 156 {
                if value < 155 {
                    if value == 154 {
                        assert(Keycode::spec_from_code(value) == Some(Keycode::KEY_CYCLEWINDOWS));
                    }
                } else {
                    if value == 155 {
                        assert(Keycode::spec_from_code(value) == Some(Keycode::KEY_MAIL));
                    }
                }
            } else {
                if value < 157 {
                    if value == 156 {
                        assert(Keycode::spec_from_code(value) == Some(Keycode::KEY_BOOKMARKS));
                    }
                } else {
                    if value == 157 {
                        assert(Keycode::spec_from_code(value) == Some(Keycode::KEY_COMPUTER));
                    }
                }
            }
        }
    }
}

proof fn lemma_from_code_sound_10(value: u16)
    requires
        158 <= value < 174,
    ensures
        Keycode::spec_from_code(value) matches Some(k) ==> k.spec_code() == value,
{
    if value < 166 {
        if value < 162 {
            if value < 160 {
                if value < 159 {
                    if value == 158 {
                        assert(Keycode::spec_from_code(value) == Some(Keycode::KEY_BACK));
                    }
                } else {
                    if value == 159 {
                        assert(Keycode::spec_from_code(value) == Some(Keycode::KEY_FORWARD));
                    }
                }
            } else {
                if value < 161 {
                    if value == 160 {
                        assert(Keycode::spec_from_code(value) == Some(Keycode::KEY_CLOSECD));
                    }
                } else {
                    if value == 161 {
                        assert(Keycode::spec_from_code(value) == Some(Keycode::KEY_EJECTCD));
                    }
                }
            }
        } else {
            if value < 164 {
                if value < 163 {
                    if value == 162 {
                        assert(Keycode::spec_from_code(value) == Some(Keycode::KEY_EJECTCLOSECD));
                    }
                } else {
                    if value == 163 {
                        assert(Keycode::spec_from_code(value) == Some(Keycode::KEY_NEXTSONG));
                    }
                }
            } else {
                if value < 165 {
                    if value == 164 {
                        assert(Keycode::spec_from_code(value) == Some(Keycode::KEY_PLAYPAUSE));
                    }
                } else {
                    if value == 165 {
                        assert(Keycode::spec_from_code(value) == Some(Keycode::KEY_PREVIOUSSONG));
                    }
                }
            }
        }
    } else {
        if value < 170 {
            if value < 168 {
                if value < 167 {
                    if value == 166 {
                        assert(Keycode::spec_from_code(value) == Some(Keycode::KEY_STOPCD));
                    }
                } else {
                    if value == 167 {
                        assert(Keycode::spec_from_code(value) == Some(Keycode::KEY_RECORD));
                    }
                }
            } else {
                if value < 169 {
                    if value == 168 {
                        assert(Keycode::spec_from_code(value) == Some(Keycode::KEY_REWIND));
                    }
                } else {
                    if value == 169 {
                        assert(Keycode::spec_from_code(value) == Some(Keycode::KEY_PHONE));
                    }
                }
            }
        } else {
            if value < 172 {
                if value < 171 {
                    if value == 170 {
                        assert(Keycode::spec_from_code(value) == Some(Keycode::KEY_ISO));
                    }
                } else {
                    if value == 171 {
                        assert(Keycode::spec_from_code(value) == Some(Keycode::KEY_CONFIG));
                    }
                }
            } else {
                if value < 173 {
                    if value == 172 {
                        assert(Keycode::spec_from_code(value) == Some(Keycode::KEY_HOMEPAGE));
                    }
                } else {
                    if value == 173 {
                        assert(Keycode::spec_from_code(value) == Some(Keycode::KEY_REFRESH));
                    }
                }
            }
        }
    }
}

proof fn lemma_from_code_sound_11(value: u16)
    requires
        174 <= value < 190,
    ensures
        Keycode::spec_from_code(value) matches Some(k) ==> k.spec_code() == value,
{
    if value < 182 {
        if value < 178 {
            if value < 176 {
                if value < 175 {
                    if value == 174 {
                        assert(Keycode::spec_from_code(value) == Some(Keycode::KEY_EXIT));
                    }
                } else {
                    if value == 175 {
                        assert(Keycode::spec_from_code(value) == Some(Keycode::KEY_MOVE));
                    }
                }
            } else {
                if value < 177 {
                    if value == 176 {
                        assert(Keycode::spec_from_code(value) == Some(Keycode::KEY_EDIT));
                    }
                } else {
                    if value == 177 {
                        assert(Keycode::spec_from_code(value) == Some(Keycode::KEY_SCROLLUP));
                    }
                }
            }
        } else {
            if value < 180 {
                if value < 179 {
                    if value == 178 {
                        assert(Keycode::spec_from_code(value) == Some(Keycode::KEY_SCROLLDOWN));
                    }
                } else {
                    if value == 179 {
                        assert(Keycode::spec_from_code(value) == Some(Keycode::KEY_KPLEFTPAREN));
                    }
                }
            } else {
                if value < 181 {
                    if value == 180 {
                        assert(Keycode::spec_from_code(value) == Some(Keycode::KEY_KPRIGHTPAREN));
                    }
                } else {
                    if value == 181 {
                        assert(Keycode::spec_from_code(value) == Some(Keycode::KEY_NEW));
                    }
                }
            }
        }
    } else {
        if value < 186 {
            if value < 184 {
                if value < 183 {
                    if value == 182 {
                        assert(Keycode::spec_from_code(value) == Some(Keycode::KEY_REDO));
                    }
                } else {
                    if value == 183 {
                        assert(Keycode::spec_from_code(value) == Some(Keycode::KEY_F13));
                    }
                }
            } else {
                if value < 185 {
                    if value == 184 {
                        assert(Keycode::spec_from_code(value) == Some(Keycode::KEY_F14));
                    }
                } else {
                    if value == 185 {
                        assert(Keycode::spec_from_code(value) == Some(Keycode::KEY_F15));
                    }
                }
            }
        } else {
            if value < 188 {
                if value < 187 {
                    if value == 186 {
                        assert(Keycode::spec_from_code(value) == Some(Keycode::KEY_F16));
                    }
                } else {
                    if value == 187 {
                        assert(Keycode::spec_from_code(value) == Some(Keycode::KEY_F17));
                    }
                }
            } else {
                if value < 189 {
                    if value == 188 {
                        assert(Keycode::spec_from_code(value) == Some(Keycode::KEY_F18));
                    }
                } else {
                    if value == 189 {
                        assert(Keycode::spec_from_code(value) == Some(Keycode::KEY_F19));
                    }
                }
            }
        }
    }
}

proof fn lemma_from_code_sound_12(value: u16)
    requires
        190 <= value < 211,
    ensures
        Keycode::spec_from_code(value) matches Some(k) ==> k.spec_code() == value,
{
    if value < 203 {
        if value < 194 {
            if value < 192 {
                if value < 191 {
                    if value == 190 {
                        assert(Keycode::spec_from_code(value) == Some(Keycode::KEY_F20));
                    }
                } else {
                    if value == 191 {
                        assert(Keycode::spec_from_code(value) == Some(Keycode::KEY_F21));
                    }
                }
            } else {
                if value < 193 {
                    if value == 192 {
                        assert(Keycode::spec_from_code(value) == Some(Keycode::KEY_F22));
                    }
                } else {
                    if value == 193 {
                        assert(Keycode::spec_from_code(value) == Some(Keycode::KEY_F23));
                    }
                }
            }
        } else {
            if value < 201 {
                if value < 200 {
                    if value == 194 {
                        assert(Keycode::spec_from_code(value) == Some(Keycode::KEY_F24));
                    }
                } else {
                    if value == 200 {
                        assert(Keycode::spec_from_code(value) == Some(Keycode::KEY_PLAYCD));
                    }
                }
            } else {
                if value < 202 {
                    if value == 201 {
                        assert(Keycode::spec_from_code(value) == Some(Keycode::KEY_PAUSECD));
                    }
                } else {
                    if value == 202 {
                        assert(Keycode::spec_from_code(value) == Some(Keycode::KEY_PROG3));
                    }
                }
            }
        }
    } else {
        if value < 207 {
            if value < 205 {
                if value < 204 {
                    if value == 203 {
                        assert(Keycode::spec_from_code(value) == Some(Keycode::KEY_PROG4));
                    }
                } else {
                    if value == 204 {
                        assert(Keycode::spec_from_code(value) == Some(Keycode::KEY_ALL_APPLICATIONS));
                    }
                }
            } else {
                if value < 206 {
                    if value == 205 {
                        assert(Keycode::spec_from_code(value) == Some(Keycode::KEY_SUSPEND));
                    }
                } else {
                    if value == 206 {
                        assert(Keycode::spec_from_code(value) == Some(Keycode::KEY_CLOSE));
                    }
                }
            }
        } else {
            if value < 209 {
                if value < 208 {
                    if value == 207 {
                        assert(Keycode::spec_from_code(value) == Some(Keycode::KEY_PLAY));
                    }
                } else {
                    if value == 208 {
                        assert(Keycode::spec_from_code(value) == Some(Keycode::KEY_FASTFORWARD));
                    }
                }
            } else {
                if value < 210 {
                    if value == 209 {
                        assert(Keycode::spec_from_code(value) == Some(Keycode::KEY_BASSBOOST));
                    }
                } else {
                    if value == 210 {
                        assert(Keycode::spec_from_code(value) == Some(Keycode::KEY_PRINT));
                    }
                }
            }
        }
    }
}

proof fn lemma_from_code_sound_13(value: u16)
    requires
        211 <= value < 227,
    ensures
        Keycode::spec_from_code(value) matches Some(k) ==> k.spec_code() == value,
{
    if value < 219 {
        if value < 215 {
            if value < 213 {
                if value < 212 {
                    if value == 211 {
                        assert(Keycode::spec_from_code(value) == Some(Keycode::KEY_HP));
                    }
                } else {
                    if value == 212 {
                        assert(Keycode::spec_from_code(value) == Some(Keycode::KEY_CAMERA));
                    }
                }
            } else {
                if value < 214 {
                    if value == 213 {
                        assert(Keycode::spec_from_code(value) == Some(Keycode::KEY_SOUND));
                    }
                } else {
                    if value == 214 {
                        assert(Keycode::spec_from_code(value) == Some(Keycode::KEY_QUESTION));
                    }
                }
            }
        } else {
            if value < 217 {
                if value < 216 {
                    if value == 215 {
                        assert(Keycode::spec_from_code(value) == Some(Keycode::KEY_EMAIL));
                    }
                } else {
                    if value == 216 {
                        assert(Keycode::spec_from_code(value) == Some(Keycode::KEY_CHAT));
                    }
                }
            } else {
                if value < 218 {
                    if value == 217 {
                        assert(Keycode::spec_from_code(value) == Some(Keycode::KEY_SEARCH));
                    }
                } else {
                    if value == 218 {
                        assert(Keycode::spec_from_code(value) == Some(Keycode::KEY_CONNECT));
                    }
                }
            }
        }
    } else {
        if value < 223 {
            if value < 221 {
                if value < 220 {
                    if value == 219 {
                        assert(Keycode::spec_from_code(value) == Some(Keycode::KEY_FINANCE));
                    }
                } else {
                    if value == 220 {
                        assert(Keycode::spec_from_code(value) == Some(Keycode::KEY_SPORT));
                    }
                }
            } else {
                if value < 222 {
                    if value == 221 {
                        assert(Keycode::spec_from_code(value) == Some(Keycode::KEY_SHOP));
                    }
                } else {
                    if value == 222 {
                        assert(Keycode::spec_from_code(value) == Some(Keycode::KEY_ALTERASE));
                    }
                }
            }
        } else {
            if value < 225 {
                if value < 224 {
                    if value == 223 {
                        assert(Keycode::spec_from_code(value) == Some(Keycode::KEY_CANCEL));
                    }
                } else {
                    if value == 224 {
                        assert(Keycode::spec_from_code(value) == Some(Keycode::KEY_BRIGHTNESSDOWN));
                    }
                }
            } else {
                if value < 226 {
                    if value == 225 {
                        assert(Keycode::spec_from_code(value) == Some(Keycode::KEY_BRIGHTNESSUP));
                    }
                } else {
                    if value == 226 {
                        assert(Keycode::spec_from_code(value) == Some(Keycode::KEY_MEDIA));
                    }
                }
            }
        }
    }
}

proof fn lemma_from_code_sound_14(value: u16)
    requires
        227 <= value < 243,
    ensures
        Keycode::spec_from_code(value) matches Some(k) ==> k.spec_code() == value,
{
    if value < 235 {
        if value < 231 {
            if value < 229 {
                if value < 228 {
                    if value == 227 {
                        assert(Keycode::spec_from_code(value) == Some(Keycode::KEY_SWITCHVIDEOMODE));
                    }
                } else {
                    if value == 228 {
                        assert(Keycode::spec_from_code(value) == Some(Keycode::KEY_KBDILLUMTOGGLE));
                    }
                }
            } else {
                if value < 230 {
                    if value == 229 {
                        assert(Keycode::spec_from_code(value) == Some(Keycode::KEY_KBDILLUMDOWN));
                    }
                } else {
                    if value == 230 {
                        assert(Keycode::spec_from_code(value) == Some(Keycode::KEY_KBDILLUMUP));
                    }
                }
            }
        } else {
            if value < 233 {
                if value < 232 {
                    if value == 231 {
                        assert(Keycode::spec_from_code(value) == Some(Keycode::KEY_SEND));
                    }
                } else {
                    if value == 232 {
                        assert(Keycode::spec_from_code(value) == Some(Keycode::KEY_REPLY));
                    }
                }
            } else {
                if value < 234 {
                    if value == 233 {
                        assert(Keycode::spec_from_code(value) == Some(Keycode::KEY_FORWARDMAIL));
                    }
                } else {
                    if value == 234 {
                        assert(Keycode::spec_from_code(value) == Some(Keycode::KEY_SAVE));
                    }
                }
            }
        }
    } else {
        if value < 239 {
            if value < 237 {
                if value < 236 {
                    if value == 235 {
                        assert(Keycode::spec_from_code(value) == Some(Keycode::KEY_DOCUMENTS));
                    }
                } else {
                    if value == 236 {
                        assert(Keycode::spec_from_code(value) == Some(Keycode::KEY_BATTERY));
                    }
                }
            } else {
                if value < 238 {
                    if value == 237 {
                        assert(Keycode::spec_from_code(value) == Some(Keycode::KEY_BLUETOOTH));
                    }
                } else {
                    if value == 238 {
                        assert(Keycode::spec_from_code(value) == Some(Keycode::KEY_WLAN));
                    }
                }
            }
        } else {
            if value < 241 {
                if value < 240 {
                    if value == 239 {
                        assert(Keycode::spec_from_code(value) == Some(Keycode::KEY_UWB));
                    }
                } else {
                    if value == 240 {
                        assert(Keycode::spec_from_code(value) == Some(Keycode::KEY_UNKNOWN));
                    }
                }
            } else {
                if value < 242 {
                    if value == 241 {
                        assert(Keycode::spec_from_code(value) == Some(Keycode::KEY_VIDEO_NEXT));
                    }
                } else {
                    if value == 242 {
                        assert(Keycode::spec_from_code(value) == Some(Keycode::KEY_VIDEO_PREV));
                    }
                }
            }
        }
    }
}

proof fn lemma_from_code_sound_15(value: u16)
    requires
        243 <= value < 362,
    ensures
        Keycode::spec_from_code(value) matches Some(k) ==> k.spec_code() == value,
{
    if value < 354 {
        if value < 247 {
            if value < 245 {
                if value < 244 {
                    if value == 243 {
                        assert(Keycode::spec_from_code(value) == Some(Keycode::KEY_BRIGHTNESS_CYCLE));
                    }
                } else {
                    if value == 244 {
                        assert(Keycode::spec_from_code(value) == Some(Keycode::KEY_BRIGHTNESS_AUTO));
                    }
                }
            } else {
                if value < 246 {
                    if value == 245 {
                        assert(Keycode::spec_from_code(value) == Some(Keycode::KEY_DISPLAY_OFF));
                    }
                } else {
                    if value == 246 {
                        assert(Keycode::spec_from_code(value) == Some(Keycode::KEY_WWAN));
                    }
                }
            }
        } else {
            if value < 352 {
                if value < 248 {
                    if value == 247 {
                        assert(Keycode::spec_from_code(value) == Some(Keycode::KEY_RFKILL));
                    }
                } else {
                    if value == 248 {
                        assert(Keycode::spec_from_code(value) == Some(Keycode::KEY_MICMUTE));
                    }
                }
            } else {
                if value < 353 {
                    if value == 352 {
                        assert(Keycode::spec_from_code(value) == Some(Keycode::KEY_OK));
                    }
                } else {
                    if value == 353 {
                        assert(Keycode::spec_from_code(value) == Some(Keycode::KEY_SELECT));
                    }
                }
            }
        }
    } else {
        if value < 358 {
            if value < 356 {
                if value < 355 {
                    if value == 354 {
                        assert(Keycode::spec_from_code(value) == Some(Keycode::KEY_GOTO));
                    }
                } else {
                    if value == 355 {
                        assert(Keycode::spec_from_code(value) == Some(Keycode::KEY_CLEAR));
                    }
                }
            } else {
                if value < 357 {
                    if value == 356 {
                        assert(Keycode::spec_from_code(value) == Some(Keycode::KEY_POWER2));
                    }
                } else {
                    if value == 357 {
                        assert(Keycode::spec_from_code(value) == Some(Keycode::KEY_OPTION));
                    }
                }
            }
        } else {
            if value < 360 {
                if value < 359 {
                    if value == 358 {
                        assert(Keycode::spec_from_code(value) == Some(Keycode::KEY_INFO));
                    }
                } else {
                    if value == 359 {
                        assert(Keycode::spec_from_code(value) == Some(Keycode::KEY_TIME));
                    }
                }
            } else {
                if value < 361 {
                    if value == 360 {
                        assert(Keycode::spec_from_code(value) == Some(Keycode::KEY_VENDOR));
                    }
                } else {
                    if value == 361 {
                        assert(Keycode::spec_from_code(value) == Some(Keycode::KEY_ARCHIVE));
                    }
                }
            }
        }
    }
}

proof fn lemma_from_code_sound_16(value: u16)
    requires
        362 <= value < 377,
    ensures
        Keycode::spec_from_code(value) matches Some(k) ==> k.spec_code() == value,
{
    if value < 369 {
        if value < 365 {
            if value < 363 {
                if value == 362 {
                    assert(Keycode::spec_from_code(value) == Some(Keycode::KEY_PROGRAM));
                }
            } else {
                if value < 364 {
                    if value == 363 {
                        assert(Keycode::spec_from_code(value) == Some(Keycode::KEY_CHANNEL));
                    }
                } else {
                    if value == 364 {
                        assert(Keycode::spec_from_code(value) == Some(Keycode::KEY_FAVORITES));
                    }
                }
            }
        } else {
            if value < 367 {
                if value < 366 {
                    if value == 365 {
                        assert(Keycode::spec_from_code(value) == Some(Keycode::KEY_EPG));
                    }
                } else {
                    if value == 366 {
                        assert(Keycode::spec_from_code(value) == Some(Keycode::KEY_PVR));
                    }
                }
            } else {
                if value < 368 {
                    if value == 367 {
                        assert(Keycode::spec_from_code(value) == Some(Keycode::KEY_MHP));
                    }
                } else {
                    if value == 368 {
                        assert(Keycode::spec_from_code(value) == Some(Keycode::KEY_LANGUAGE));
                    }
                }
            }
        }
    } else {
        if value < 373 {
            if value < 371 {
                if value < 370 {
                    if value == 369 {
                        assert(Keycode::spec_from_code(value) == Some(Keycode::KEY_TITLE));
                    }
                } else {
                    if value == 370 {
                        assert(Keycode::spec_from_code(value) == Some(Keycode::KEY_SUBTITLE));
                    }
                }
            } else {
                if value < 372 {
                    if value == 371 {
                        assert(Keycode::spec_from_code(value) == Some(Keycode::KEY_ANGLE));
                    }
                } else {
                    if value == 372 {
                        assert(Keycode::spec_from_code(value) == Some(Keycode::KEY_FULL_SCREEN));
                    }
                }
            }
        } else {
            if value < 375 {
                if value < 374 {
                    if value == 373 {
                        assert(Keycode::spec_from_code(value) == Some(Keycode::KEY_MODE));
                    }
                } else {
                    if value == 374 {
                        assert(Keycode::spec_from_code(value) == Some(Keycode::KEY_KEYBOARD));
                    }
                }
            } else {
                if value < 376 {
                    if value == 375 {
                        assert(Keycode::spec_from_code(value) == Some(Keycode::KEY_ASPECT_RATIO));
                    }
                } else {
                    if value == 376 {
                        assert(Keycode::spec_from_code(value) == Some(Keycode::KEY_PC));
                    }
                }
            }
        }
    }
}

proof fn lemma_from_code_sound_17(value: u16)
    requires
        377 <= value < 393,
    ensures
        Keycode::spec_from_code(value) matches Some(k) ==> k.spec_code() == value,
{
    if value < 385 {
        if value < 381 {
            if value < 379 {
                if value < 378 {
                    if value == 377 {
                        assert(Keycode::spec_from_code(value) == Some(Keycode::KEY_TV));
                    }
                } else {
                    if value == 378 {
                        assert(Keycode::spec_from_code(value) == Some(Keycode::KEY_TV2));
                    }
                }
            } else {
                if value < 380 {
                    if value == 379 {
                        assert(Keycode::spec_from_code(value) == Some(Keycode::KEY_VCR));
                    }
                } else {
                    if value == 380 {
                        assert(Keycode::spec_from_code(value) == Some(Keycode::KEY_VCR2));
                    }
                }
            }
        } else {
            if value < 383 {
                if value < 382 {
                    if value == 381 {
                        assert(Keycode::spec_from_code(value) == Some(Keycode::KEY_SAT));
                    }
                } else {
                    if value == 382 {
                        assert(Keycode::spec_from_code(value) == Some(Keycode::KEY_SAT2));
                    }
                }
            } else {
                if value < 384 {
                    if value == 383 {
                        assert(Keycode::spec_from_code(value) == Some(Keycode::KEY_CD));
                    }
                } else {
                    if value == 384 {
                        assert(Keycode::spec_from_code(value) == Some(Keycode::KEY_TAPE));
                    }
                }
            }
        }
    } else {
        if value < 389 {
            if value < 387 {
                if value < 386 {
                    if value == 385 {
                        assert(Keycode::spec_from_code(value) == Some(Keycode::KEY_RADIO));
                    }
                } else {
                    if value == 386 {
                        assert(Keycode::spec_from_code(value) == Some(Keycode::KEY_TUNER));
                    }
                }
            } else {
                if value < 388 {
                    if value == 387 {
                        assert(Keycode::spec_from_code(value) == Some(Keycode::KEY_PLAYER));
                    }
                } else {
                    if value == 388 {
                        assert(Keycode::spec_from_code(value) == Some(Keycode::KEY_TEXT));
                    }
                }
            }
        } else {
            if value < 391 {
                if value < 390 {
                    if value == 389 {
                        assert(Keycode::spec_from_code(value) == Some(Keycode::KEY_DVD));
                    }
                } else {
                    if value == 390 {
                        assert(Keycode::spec_from_code(value) == Some(Keycode::KEY_AUX));
                    }
                }
            } else {
                if value < 392 {
                    if value == 391 {
                        assert(Keycode::spec_from_code(value) == Some(Keycode::KEY_MP3));
                    }
                } else {
                    if value == 392 {
                        assert(Keycode::spec_from_code(value) == Some(Keycode::KEY_AUDIO));
                    }
                }
            }
        }
    }
}

proof fn lemma_from_code_sound_18(value: u16)
    requires
        393 <= value < 409,
    ensures
        Keycode::spec_from_code(value) matches Some(k) ==> k.spec_code() == value,
{
    if value < 401 {
        if value < 397 {
            if value < 395 {
                if value < 394 {
                    if value == 393 {
                        assert(Keycode::spec_from_code(value) == Some(Keycode::KEY_VIDEO));
                    }
                } else {
                    if value == 394 {
                        assert(Keycode::spec_from_code(value) == Some(Keycode::KEY_DIRECTORY));
                    }
                }
            } else {
                if value < 396 {
                    if value == 395 {
                        assert(Keycode::spec_from_code(value) == Some(Keycode::KEY_LIST));
                    }
                } else {
                    if value == 396 {
                        assert(Keycode::spec_from_code(value) == Some(Keycode::KEY_MEMO));
                    }
                }
            }
        } else {
            if value < 399 {
                if value < 398 {
                    if value == 397 {
                        assert(Keycode::spec_from_code(value) == Some(Keycode::KEY_CALENDAR));
                    }
                } else {
                    if value == 398 {
                        assert(Keycode::spec_from_code(value) == Some(Keycode::KEY_RED));
                    }
                }
            } else {
                if value < 400 {
                    if value == 399 {
                        assert(Keycode::spec_from_code(value) == Some(Keycode::KEY_GREEN));
                    }
                } else {
                    if value == 400 {
                        assert(Keycode::spec_from_code(value) == Some(Keycode::KEY_YELLOW));
                    }
                }
            }
        }
    } else {
        if value < 405 {
            if value < 403 {
                if value < 402 {
                    if value == 401 {
                        assert(Keycode::spec_from_code(value) == Some(Keycode::KEY_BLUE));
                    }
                } else {
                    if value == 402 {
                        assert(Keycode::spec_from_code(value) == Some(Keycode::KEY_CHANNELUP));
                    }
                }
            } else {
                if value < 404 {
                    if value == 403 {
                        assert(Keycode::spec_from_code(value) == Some(Keycode::KEY_CHANNELDOWN));
                    }
                } else {
                    if value == 404 {
                        assert(Keycode::spec_from_code(value) == Some(Keycode::KEY_FIRST));
                    }
                }
            }
        } else {
            if value < 407 {
                if value < 406 {
                    if value == 405 {
                        assert(Keycode::spec_from_code(value) == Some(Keycode::KEY_LAST));
                    }
                } else {
                    if value == 406 {
                        assert(Keycode::spec_from_code(value) == Some(Keycode::KEY_AB));
                    }
                }
            } else {
                if value < 408 {
                    if value == 407 {
                        assert(Keycode::spec_from_code(value) == Some(Keycode::KEY_NEXT));
                    }
                } else {
                    if value == 408 {
                        assert(Keycode::spec_from_code(value) == Some(Keycode::KEY_RESTART));
                    }
                }
            }
        }
    }
}

proof fn lemma_from_code_sound_19(value: u16)
    requires
        409 <= value < 425,
    ensures
        Keycode::spec_from_code(value) matches Some(k) ==> k.spec_code() == value,
{
    if value < 417 {
        if value < 413 {
            if value < 411 {
                if value < 410 {
                    if value == 409 {
                        assert(Keycode::spec_from_code(value) == Some(Keycode::KEY_SLOW));
                    }
                } else {
                    if value == 410 {
                        assert(Keycode::spec_from_code(value) == Some(Keycode::KEY_SHUFFLE));
                    }
                }
            } else {
                if value < 412 {
                    if value == 411 {
                        assert(Keycode::spec_from_code(value) == Some(Keycode::KEY_BREAK));
                    }
                } else {
                    if value == 412 {
                        assert(Keycode::spec_from_code(value) == Some(Keycode::KEY_PREVIOUS));
                    }
                }
            }
        } else {
            if value < 415 {
                if value < 414 {
                    if value == 413 {
                        assert(Keycode::spec_from_code(value) == Some(Keycode::KEY_DIGITS));
                    }
                } else {
                    if value == 414 {
                        assert(Keycode::spec_from_code(value) == Some(Keycode::KEY_TEEN));
                    }
                }
            } else {
                if value < 416 {
                    if value == 415 {
                        assert(Keycode::spec_from_code(value) == Some(Keycode::KEY_TWEN));
                    }
                } else {
                    if value == 416 {
                        assert(Keycode::spec_from_code(value) == Some(Keycode::KEY_VIDEOPHONE));
                    }
                }
            }
        }
    } else {
        if value < 421 {
            if value < 419 {
                if value < 418 {
                    if value == 417 {
                        assert(Keycode::spec_from_code(value) == Some(Keycode::KEY_GAMES));
                    }
                } else {
                    if value == 418 {
                        assert(Keycode::spec_from_code(value) == Some(Keycode::KEY_ZOOMIN));
                    }
                }
            } else {
                if value < 420 {
                    if value == 419 {
                        assert(Keycode::spec_from_code(value) == Some(Keycode::KEY_ZOOMOUT));
                    }
                } else {
                    if value == 420 {
                        assert(Keycode::spec_from_code(value) == Some(Keycode::KEY_ZOOMRESET));
                    }
                }
            }
        } else {
            if value < 423 {
                if value < 422 {
                    if value == 421 {
                        assert(Keycode::spec_from_code(value) == Some(Keycode::KEY_WORDPROCESSOR));
                    }
                } else {
                    if value == 422 {
                        assert(Keycode::spec_from_code(value) == Some(Keycode::KEY_EDITOR));
                    }
                }
            } else {
                if value < 424 {
                    if value == 423 {
                        assert(Keycode::spec_from_code(value) == Some(Keycode::KEY_SPREADSHEET));
                    }
                } else {
                    if value == 424 {
                        assert(Keycode::spec_from_code(value) == Some(Keycode::KEY_GRAPHICSEDITOR));
                    }
                }
            }
        }
    }
}

proof fn lemma_from_code_sound_20(value: u16)
    requires
        425 <= value < 440,
    ensures
        Keycode::spec_from_code(value) matches Some(k) ==> k.spec_code() == value,
{
    if value < 432 {
        if value < 428 {
            if value < 426 {
                if value == 425 {
                    assert(Keycode::spec_from_code(value) == Some(Keycode::KEY_PRESENTATION));
                }
            } else {
                if value < 427 {
                    if value == 426 {
                        assert(Keycode::spec_from_code(value) == Some(Keycode::KEY_DATABASE));
                    }
                } else {
                    if value == 427 {
                        assert(Keycode::spec_from_code(value) == Some(Keycode::KEY_NEWS));
                    }
                }
            }
        } else {
            if value < 430 {
                if value < 429 {
                    if value == 428 {
                        assert(Keycode::spec_from_code(value) == Some(Keycode::KEY_VOICEMAIL));
                    }
                } else {
                    if value == 429 {
                        assert(Keycode::spec_from_code(value) == Some(Keycode::KEY_ADDRESSBOOK));
                    }
                }
            } else {
                if value < 431 {
                    if value == 430 {
                        assert(Keycode::spec_from_code(value) == Some(Keycode::KEY_MESSENGER));
                    }
                } else {
                    if value == 431 {
                        assert(Keycode::spec_from_code(value) == Some(Keycode::KEY_DISPLAYTOGGLE));
                    }
                }
            }
        }
    } else {
        if value < 436 {
            if value < 434 {
                if value < 433 {
                    if value == 432 {
                        assert(Keycode::spec_from_code(value) == Some(Keycode::KEY_SPELLCHECK));
                    }
                } else {
                    if value == 433 {
                        assert(Keycode::spec_from_code(value) == Some(Keycode::KEY_LOGOFF));
                    }
                }
            } else {
                if value < 435 {
                    if value == 434 {
                        assert(Keycode::spec_from_code(value) == Some(Keycode::KEY_DOLLAR));
                    }
                } else {
                    if value == 435 {
                        assert(Keycode::spec_from_code(value) == Some(Keycode::KEY_EURO));
                    }
                }
            }
        } else {
            if value < 438 {
                if value < 437 {
                    if value == 436 {
                        assert(Keycode::spec_from_code(value) == Some(Keycode::KEY_FRAMEBACK));
                    }
                } else {
                    if value == 437 {
                        assert(Keycode::spec_from_code(value) == Some(Keycode::KEY_FRAMEFORWARD));
                    }
                }
            } else {
                if value < 439 {
                    if value == 438 {
                        assert(Keycode::spec_from_code(value) == Some(Keycode::KEY_CONTEXT_MENU));
                    }
                } else {
                    if value == 439 {
                        assert(Keycode::spec_from_code(value) == Some(Keycode::KEY_MEDIA_REPEAT));
                    }
                }
            }
        }
    }
}

proof fn lemma_from_code_sound_21(value: u16)
    requires
        440 <= value < 469,
    ensures
        Keycode::spec_from_code(value) matches Some(k) ==> k.spec_code() == value,
{
    if value < 449 {
        if value < 445 {
            if value < 442 {
                if value < 441 {
                    if value == 440 {
                        assert(Keycode::spec_from_code(value) == Some(Keycode::KEY_10CHANNELSUP));
                    }
                } else {
                    if value == 441 {
                        assert(Keycode::spec_from_code(value) == Some(Keycode::KEY_10CHANNELSDOWN));
                    }
                }
            } else {
                if value < 444 {
                    if value == 442 {
                        assert(Keycode::spec_from_code(value) == Some(Keycode::KEY_IMAGES));
                    }
                } else {
                    if value == 444 {
                        assert(Keycode::spec_from_code(value) == Some(Keycode::KEY_NOTIFICATION_CENTER));
                    }
                }
            }
        } else {
            if value < 447 {
                if value < 446 {
                    if value == 445 {
                        assert(Keycode::spec_from_code(value) == Some(Keycode::KEY_PICKUP_PHONE));
                    }
                } else {
                    if value == 446 {
                        assert(Keycode::spec_from_code(value) == Some(Keycode::KEY_HANGUP_PHONE));
                    }
                }
            } else {
                if value < 448 {
                    if value == 447 {
                        assert(Keycode::spec_from_code(value) == Some(Keycode::KEY_LINK_PHONE));
                    }
                } else {
                    if value == 448 {
                        assert(Keycode::spec_from_code(value) == Some(Keycode::KEY_DEL_EOL));
                    }
                }
            }
        }
    } else {
        if value < 465 {
            if value < 451 {
                if value < 450 {
                    if value == 449 {
                        assert(Keycode::spec_from_code(value) == Some(Keycode::KEY_DEL_EOS));
                    }
                } else {
                    if value == 450 {
                        assert(Keycode::spec_from_code(value) == Some(Keycode::KEY_INS_LINE));
                    }
                }
            } else {
                if value < 464 {
                    if value == 451 {
                        assert(Keycode::spec_from_code(value) == Some(Keycode::KEY_DEL_LINE));
                    }
                } else {
                    if value == 464 {
                        assert(Keycode::spec_from_code(value) == Some(Keycode::KEY_FN));
                    }
                }
            }
        } else {
            if value < 467 {
                if value < 466 {
                    if value == 465 {
                        assert(Keycode::spec_from_code(value) == Some(Keycode::KEY_FN_ESC));
                    }
                } else {
                    if value == 466 {
                        assert(Keycode::spec_from_code(value) == Some(Keycode::KEY_FN_F1));
                    }
                }
            } else {
                if value < 468 {
                    if value == 467 {
                        assert(Keycode::spec_from_code(value) == Some(Keycode::KEY_FN_F2));
                    }
                } else {
                    if value == 468 {
                        assert(Keycode::spec_from_code(value) == Some(Keycode::KEY_FN_F3));
                    }
                }
            }
        }
    }
}

proof fn lemma_from_code_sound_22(value: u16)
    requires
        469 <= value < 485,
    ensures
        Keycode::spec_from_code(value) matches Some(k) ==> k.spec_code() == value,
{
    if value < 477 {
        if value < 473 {
            if value < 471 {
                if value < 470 {
                    if value == 469 {
                        assert(Keycode::spec_from_code(value) == Some(Keycode::KEY_FN_F4));
                    }
                } else {
                    if value == 470 {
                        assert(Keycode::spec_from_code(value) == Some(Keycode::KEY_FN_F5));
                    }
                }
            } else {
                if value < 472 {
                    if value == 471 {
                        assert(Keycode::spec_from_code(value) == Some(Keycode::KEY_FN_F6));
                    }
                } else {
                    if value == 472 {
                        assert(Keycode::spec_from_code(value) == Some(Keycode::KEY_FN_F7));
                    }
                }
            }
        } else {
            if value < 475 {
                if value < 474 {
                    if value == 473 {
                        assert(Keycode::spec_from_code(value) == Some(Keycode::KEY_FN_F8));
                    }
                } else {
                    if value == 474 {
                        assert(Keycode::spec_from_code(value) == Some(Keycode::KEY_FN_F9));
                    }
                }
            } else {
                if value < 476 {
                    if value == 475 {
                        assert(Keycode::spec_from_code(value) == Some(Keycode::KEY_FN_F10));
                    }
                } else {
                    if value == 476 {
                        assert(Keycode::spec_from_code(value) == Some(Keycode::KEY_FN_F11));
                    }
                }
            }
        }
    } else {
        if value < 481 {
            if value < 479 {
                if value < 478 {
                    if value == 477 {
                        assert(Keycode::spec_from_code(value) == Some(Keycode::KEY_FN_F12));
                    }
                } else {
                    if value == 478 {
                        assert(Keycode::spec_from_code(value) == Some(Keycode::KEY_FN_1));
                    }
                }
            } else {
                if value < 480 {
                    if value == 479 {
                        assert(Keycode::spec_from_code(value) == Some(Keycode::KEY_FN_2));
                    }
                } else {
                    if value == 480 {
                        assert(Keycode::spec_from_code(value) == Some(Keycode::KEY_FN_D));
                    }
                }
            }
        } else {
            if value < 483 {
                if value < 482 {
                    if value == 481 {
                        assert(Keycode::spec_from_code(value) == Some(Keycode::KEY_FN_E));
                    }
                } else {
                    if value == 482 {
                        assert(Keycode::spec_from_code(value) == Some(Keycode::KEY_FN_F));
                    }
                }
            } else {
                if value < 484 {
                    if value == 483 {
                        assert(Keycode::spec_from_code(value) == Some(Keycode::KEY_FN_S));
                    }
                } else {
                    if value == 484 {
                        assert(Keycode::spec_from_code(value) == Some(Keycode::KEY_FN_B));
                    }
                }
            }
        }
    }
}

proof fn lemma_from_code_sound_23(value: u16)
    requires
        485 <= value < 517,
    ensures
        Keycode::spec_from_code(value) matches Some(k) ==> k.spec_code() == value,
{
    if value < 504 {
        if value < 500 {
            if value < 498 {
                if value < 497 {
                    if value == 485 {
                        assert(Keycode::spec_from_code(value) == Some(Keycode::KEY_FN_RIGHT_SHIFT));
                    }
                } else {
                    if value == 497 {
                        assert(Keycode::spec_from_code(value) == Some(Keycode::KEY_BRL_DOT1));
                    }
                }
            } else {
                if value < 499 {
                    if value == 498 {
                        assert(Keycode::spec_from_code(value) == Some(Keycode::KEY_BRL_DOT2));
                    }
                } else {
                    if value == 499 {
                        assert(Keycode::spec_from_code(value) == Some(Keycode::KEY_BRL_DOT3));
                    }
                }
            }
        } else {
            if value < 502 {
                if value < 501 {
                    if value == 500 {
                        assert(Keycode::spec_from_code(value) == Some(Keycode::KEY_BRL_DOT4));
                    }
                } else {
                    if value == 501 {
                        assert(Keycode::spec_from_code(value) == Some(Keycode::KEY_BRL_DOT5));
                    }
                }
            } else {
                if value < 503 {
                    if value == 502 {
                        assert(Keycode::spec_from_code(value) == Some(Keycode::KEY_BRL_DOT6));
                    }
                } else {
                    if value == 503 {
                        assert(Keycode::spec_from_code(value) == Some(Keycode::KEY_BRL_DOT7));
                    }
                }
            }
        }
    } else {
        if value < 513 {
            if value < 506 {
                if value < 505 {
                    if value == 504 {
                        assert(Keycode::spec_from_code(value) == Some(Keycode::KEY_BRL_DOT8));
                    }
                } else {
                    if value == 505 {
                        assert(Keycode::spec_from_code(value) == Some(Keycode::KEY_BRL_DOT9));
                    }
                }
            } else {
                if value < 512 {
                    if value == 506 {
                        assert(Keycode::spec_from_code(value) == Some(Keycode::KEY_BRL_DOT10));
                    }
                } else {
                    if value == 512 {
                        assert(Keycode::spec_from_code(value) == Some(Keycode::KEY_NUMERIC_0));
                    }
                }
            }
        } else {
            if value < 515 {
                if value < 514 {
                    if value == 513 {
                        assert(Keycode::spec_from_code(value) == Some(Keycode::KEY_NUMERIC_1));
                    }
                } else {
                    if value == 514 {
                        assert(Keycode::spec_from_code(value) == Some(Keycode::KEY_NUMERIC_2));
                    }
                }
            } else {
                if value < 516 {
                    if value == 515 {
                        assert(Keycode::spec_from_code(value) == Some(Keycode::KEY_NUMERIC_3));
                    }
                } else {
                    if value == 516 {
                        assert(Keycode::spec_from_code(value) == Some(Keycode::KEY_NUMERIC_4));
                    }
                }
            }
        }
    }
}

proof fn lemma_from_code_sound_24(value: u16)
    requires
        517 <= value < 532,
    ensures
        Keycode::spec_from_code(value) matches Some(k) ==> k.spec_code() == value,
{
    if value < 524 {
        if value < 520 {
            if value < 518 {
                if value == 517 {
                    assert(Keycode::spec_from_code(value) == Some(Keycode::KEY_NUMERIC_5));
                }
            } else {
                if value < 519 {
                    if value == 518 {
                        assert(Keycode::spec_from_code(value) == Some(Keycode::KEY_NUMERIC_6));
                    }
                } else {
                    if value == 519 {
                        assert(Keycode::spec_from_code(value) == Some(Keycode::KEY_NUMERIC_7));
                    }
                }
            }
        } else {
            if value < 522 {
                if value < 521 {
                    if value == 520 {
                        assert(Keycode::spec_from_code(value) == Some(Keycode::KEY_NUMERIC_8));
                    }
                } else {
                    if value == 521 {
                        assert(Keycode::spec_from_code(value) == Some(Keycode::KEY_NUMERIC_9));
                    }
                }
            } else {
                if value < 523 {
                    if value == 522 {
                        assert(Keycode::spec_from_code(value) == Some(Keycode::KEY_NUMERIC_STAR));
                    }
                } else {
                    if value == 523 {
                        assert(Keycode::spec_from_code(value) == Some(Keycode::KEY_NUMERIC_POUND));
                    }
                }
            }
        }
    } else {
        if value < 528 {
            if value < 526 {
                if value < 525 {
                    if value == 524 {
                        assert(Keycode::spec_from_code(value) == Some(Keycode::KEY_NUMERIC_A));
                    }
                } else {
                    if value == 525 {
                        assert(Keycode::spec_from_code(value) == Some(Keycode::KEY_NUMERIC_B));
                    }
                }
            } else {
                if value < 527 {
                    if value == 526 {
                        assert(Keycode::spec_from_code(value) == Some(Keycode::KEY_NUMERIC_C));
                    }
                } else {
                    if value == 527 {
                        assert(Keycode::spec_from_code(value) == Some(Keycode::KEY_NUMERIC_D));
                    }
                }
            }
        } else {
            if value < 530 {
                if value < 529 {
                    if value == 528 {
                        assert(Keycode::spec_from_code(value) == Some(Keycode::KEY_CAMERA_FOCUS));
                    }
                } else {
                    if value == 529 {
                        assert(Keycode::spec_from_code(value) == Some(Keycode::KEY_WPS_BUTTON));
                    }
                }
            } else {
                if value < 531 {
                    if value == 530 {
                        assert(Keycode::spec_from_code(value) == Some(Keycode::KEY_TOUCHPAD_TOGGLE));
                    }
                } else {
                    if value == 531 {
                        assert(Keycode::spec_from_code(value) == Some(Keycode::KEY_TOUCHPAD_ON));
                    }
                }
            }
        }
    }
}

proof fn lemma_from_code_sound_25(value: u16)
    requires
        532 <= value < 578,
    ensures
        Keycode::spec_from_code(value) matches Some(k) ==> k.spec_code() == value,
{
    if value < 540 {
        if value < 536 {
            if value < 534 {
                if value < 533 {
                    if value == 532 {
                        assert(Keycode::spec_from_code(value) == Some(Keycode::KEY_TOUCHPAD_OFF));
                    }
                } else {
                    if value == 533 {
                        assert(Keycode::spec_from_code(value) == Some(Keycode::KEY_CAMERA_ZOOMIN));
                    }
                }
            } else {
                if value < 535 {
                    if value == 534 {
                        assert(Keycode::spec_from_code(value) == Some(Keycode::KEY_CAMERA_ZOOMOUT));
                    }
                } else {
                    if value == 535 {
                        assert(Keycode::spec_from_code(value) == Some(Keycode::KEY_CAMERA_UP));
                    }
                }
            }
        } else {
            if value < 538 {
                if value < 537 {
                    if value == 536 {
                        assert(Keycode::spec_from_code(value) == Some(Keycode::KEY_CAMERA_DOWN));
                    }
                } else {
                    if value == 537 {
                        assert(Keycode::spec_from_code(value) == Some(Keycode::KEY_CAMERA_LEFT));
                    }
                }
            } else {
                if value < 539 {
                    if value == 538 {
                        assert(Keycode::spec_from_code(value) == Some(Keycode::KEY_CAMERA_RIGHT));
                    }
                } else {
                    if value == 539 {
                        assert(Keycode::spec_from_code(value) == Some(Keycode::KEY_ATTENDANT_ON));
                    }
                }
            }
        }
    } else {
        if value < 561 {
            if value < 542 {
                if value < 541 {
                    if value == 540 {
                        assert(Keycode::spec_from_code(value) == Some(Keycode::KEY_ATTENDANT_OFF));
                    }
                } else {
                    if value == 541 {
                        assert(Keycode::spec_from_code(value) == Some(Keycode::KEY_ATTENDANT_TOGGLE));
                    }
                }
            } else {
                if value < 560 {
                    if value == 542 {
                        assert(Keycode::spec_from_code(value) == Some(Keycode::KEY_LIGHTS_TOGGLE));
                    }
                } else {
                    if value == 560 {
                        assert(Keycode::spec_from_code(value) == Some(Keycode::KEY_ALS_TOGGLE));
                    }
                }
            }
        } else {
            if value < 576 {
                if value < 562 {
                    if value == 561 {
                        assert(Keycode::spec_from_code(value) == Some(Keycode::KEY_ROTATE_LOCK_TOGGLE));
                    }
                } else {
                    if value == 562 {
                        assert(Keycode::spec_from_code(value) == Some(Keycode::KEY_REFRESH_RATE_TOGGLE));
                    }
                }
            } else {
                if value < 577 {
                    if value == 576 {
                        assert(Keycode::spec_from_code(value) == Some(Keycode::KEY_BUTTONCONFIG));
                    }
                } else {
                    if value == 577 {
                        assert(Keycode::spec_from_code(value) == Some(Keycode::KEY_TASKMANAGER));
                    }
                }
            }
        }
    }
}

proof fn lemma_from_code_sound_26(value: u16)
    requires
        578 <= value < 613,
    ensures
        Keycode::spec_from_code(value) matches Some(k) ==> k.spec_code() == value,
{
    if value < 586 {
        if value < 582 {
            if value < 580 {
                if value < 579 {
                    if value == 578 {
                        assert(Keycode::spec_from_code(value) == Some(Keycode::KEY_JOURNAL));
                    }
                } else {
                    if value == 579 {
                        assert(Keycode::spec_from_code(value) == Some(Keycode::KEY_CONTROLPANEL));
                    }
                }
            } else {
                if value < 581 {
                    if value == 580 {
                        assert(Keycode::spec_from_code(value) == Some(Keycode::KEY_APPSELECT));
                    }
                } else {
                    if value == 581 {
                        assert(Keycode::spec_from_code(value) == Some(Keycode::KEY_SCREENSAVER));
                    }
                }
            }
        } else {
            if value < 584 {
                if value < 583 {
                    if value == 582 {
                        assert(Keycode::spec_from_code(value) == Some(Keycode::KEY_VOICECOMMAND));
                    }
                } else {
                    if value == 583 {
                        assert(Keycode::spec_from_code(value) == Some(Keycode::KEY_ASSISTANT));
                    }
                }
            } else {
                if value < 585 {
                    if value == 584 {
                        assert(Keycode::spec_from_code(value) == Some(Keycode::KEY_KBD_LAYOUT_NEXT));
                    }
                } else {
                    if value == 585 {
                        assert(Keycode::spec_from_code(value) == Some(Keycode::KEY_EMOJI_PICKER));
                    }
                }
            }
        }
    } else {
        if value < 609 {
            if value < 593 {
                if value < 592 {
                    if value == 586 {
                        assert(Keycode::spec_from_code(value) == Some(Keycode::KEY_DICTATE));
                    }
                } else {
                    if value == 592 {
                        assert(Keycode::spec_from_code(value) == Some(Keycode::KEY_BRIGHTNESS_MIN));
                    }
                }
            } else {
                if value < 608 {
                    if value == 593 {
                        assert(Keycode::spec_from_code(value) == Some(Keycode::KEY_BRIGHTNESS_MAX));
                    }
                } else {
                    if value == 608 {
                        assert(Keycode::spec_from_code(value) == Some(Keycode::KEY_KBDINPUTASSIST_PREV));
                    }
                }
            }
        } else {
            if value < 611 {
                if value < 610 {
                    if value == 609 {
                        assert(Keycode::spec_from_code(value) == Some(Keycode::KEY_KBDINPUTASSIST_NEXT));
                    }
                } else {
                    if value == 610 {
                        assert(Keycode::spec_from_code(value) == Some(Keycode::KEY_KBDINPUTASSIST_PREVGROUP));
                    }
                }
            } else {
                if value < 612 {
                    if value == 611 {
                        assert(Keycode::spec_from_code(value) == Some(Keycode::KEY_KBDINPUTASSIST_NEXTGROUP));
                    }
                } else {
                    if value == 612 {
                        assert(Keycode::spec_from_code(value) == Some(Keycode::KEY_KBDINPUTASSIST_ACCEPT));
                    }
                }
            }
        }
    }
}

proof fn lemma_from_code_sound_27(value: u16)
    requires
        613 <= value < 629,
    ensures
        Keycode::spec_from_code(value) matches Some(k) ==> k.spec_code() == value,
{
    if value < 621 {
        if value < 617 {
            if value < 615 {
                if value < 614 {
                    if value == 613 {
                        assert(Keycode::spec_from_code(value) == Some(Keycode::KEY_KBDINPUTASSIST_CANCEL));
                    }
                } else {
                    if value == 614 {
                        assert(Keycode::spec_from_code(value) == Some(Keycode::KEY_RIGHT_UP));
                    }
                }
            } else {
                if value < 616 {
                    if value == 615 {
                        assert(Keycode::spec_from_code(value) == Some(Keycode::KEY_RIGHT_DOWN));
                    }
                } else {
                    if value == 616 {
                        assert(Keycode::spec_from_code(value) == Some(Keycode::KEY_LEFT_UP));
                    }
                }
            }
        } else {
            if value < 619 {
                if value < 618 {
                    if value == 617 {
                        assert(Keycode::spec_from_code(value) == Some(Keycode::KEY_LEFT_DOWN));
                    }
                } else {
                    if value == 618 {
                        assert(Keycode::spec_from_code(value) == Some(Keycode::KEY_ROOT_MENU));
                    }
                }
            } else {
                if value < 620 {
                    if value == 619 {
                        assert(Keycode::spec_from_code(value) == Some(Keycode::KEY_MEDIA_TOP_MENU));
                    }
                } else {
                    if value == 620 {
                        assert(Keycode::spec_from_code(value) == Some(Keycode::KEY_NUMERIC_11));
                    }
                }
            }
        }
    } else {
        if value < 625 {
            if value < 623 {
                if value < 622 {
                    if value == 621 {
                        assert(Keycode::spec_from_code(value) == Some(Keycode::KEY_NUMERIC_12));
                    }
                } else {
                    if value == 622 {
                        assert(Keycode::spec_from_code(value) == Some(Keycode::KEY_AUDIO_DESC));
                    }
                }
            } else {
                if value < 624 {
                    if value == 623 {
                        assert(Keycode::spec_from_code(value) == Some(Keycode::KEY_3D_MODE));
                    }
                } else {
                    if value == 624 {
                        assert(Keycode::spec_from_code(value) == Some(Keycode::KEY_NEXT_FAVORITE));
                    }
                }
            }
        } else {
            if value < 627 {
                if value < 626 {
                    if value == 625 {
                        assert(Keycode::spec_from_code(value) == Some(Keycode::KEY_STOP_RECORD));
                    }
                } else {
                    if value == 626 {
                        assert(Keycode::spec_from_code(value) == Some(Keycode::KEY_PAUSE_RECORD));
                    }
                }
            } else {
                if value < 628 {
                    if value == 627 {
                        assert(Keycode::spec_from_code(value) == Some(Keycode::KEY_VOD));
                    }
                } else {
                    if value == 628 {
                        assert(Keycode::spec_from_code(value) == Some(Keycode::KEY_UNMUTE));
                    }
                }
            }
        }
    }
}

proof fn lemma_from_code_sound_28(value: u16)
    requires
        629 <= value < 645,
    ensures
        Keycode::spec_from_code(value) matches Some(k) ==> k.spec_code() == value,
{
    if value < 637 {
        if value < 633 {
            if value < 631 {
                if value < 630 {
                    if value == 629 {
                        assert(Keycode::spec_from_code(value) == Some(Keycode::KEY_FASTREVERSE));
                    }
                } else {
                    if value == 630 {
                        assert(Keycode::spec_from_code(value) == Some(Keycode::KEY_SLOWREVERSE));
                    }
                }
            } else {
                if value < 632 {
                    if value == 631 {
                        assert(Keycode::spec_from_code(value) == Some(Keycode::KEY_DATA));
                    }
                } else {
                    if value == 632 {
                        assert(Keycode::spec_from_code(value) == Some(Keycode::KEY_ONSCREEN_KEYBOARD));
                    }
                }
            }
        } else {
            if value < 635 {
                if value < 634 {
                    if value == 633 {
                        assert(Keycode::spec_from_code(value) == Some(Keycode::KEY_PRIVACY_SCREEN_TOGGLE));
                    }
                } else {
                    if value == 634 {
                        assert(Keycode::spec_from_code(value) == Some(Keycode::KEY_SELECTIVE_SCREENSHOT));
                    }
                }
            } else {
                if value < 636 {
                    if value == 635 {
                        assert(Keycode::spec_from_code(value) == Some(Keycode::KEY_NEXT_ELEMENT));
                    }
                } else {
                    if value == 636 {
                        assert(Keycode::spec_from_code(value) == Some(Keycode::KEY_PREVIOUS_ELEMENT));
                    }
                }
            }
        }
    } else {
        if value < 641 {
            if value < 639 {
                if value < 638 {
                    if value == 637 {
                        assert(Keycode::spec_from_code(value) == Some(Keycode::KEY_AUTOPILOT_ENGAGE_TOGGLE));
                    }
                } else {
                    if value == 638 {
                        assert(Keycode::spec_from_code(value) == Some(Keycode::KEY_MARK_WAYPOINT));
                    }
                }
            } else {
                if value < 640 {
                    if value == 639 {
                        assert(Keycode::spec_from_code(value) == Some(Keycode::KEY_SOS));
                    }
                } else {
                    if value == 640 {
                        assert(Keycode::spec_from_code(value) == Some(Keycode::KEY_NAV_CHART));
                    }
                }
            }
        } else {
            if value < 643 {
                if value < 642 {
                    if value == 641 {
                        assert(Keycode::spec_from_code(value) == Some(Keycode::KEY_FISHING_CHART));
                    }
                } else {
                    if value == 642 {
                        assert(Keycode::spec_from_code(value) == Some(Keycode::KEY_SINGLE_RANGE_RADAR));
                    }
                }
            } else {
                if value < 644 {
                    if value == 643 {
                        assert(Keycode::spec_from_code(value) == Some(Keycode::KEY_DUAL_RANGE_RADAR));
                    }
                } else {
                    if value == 644 {
                        assert(Keycode::spec_from_code(value) == Some(Keycode::KEY_RADAR_OVERLAY));
                    }
                }
            }
        }
    }
}

proof fn lemma_from_code_sound_29(value: u16)
    requires
        645 <= value < 667,
    ensures
        Keycode::spec_from_code(value) matches Some(k) ==> k.spec_code() == value,
{
    if value < 659 {
        if value < 649 {
            if value < 647 {
                if value < 646 {
                    if value == 645 {
                        assert(Keycode::spec_from_code(value) == Some(Keycode::KEY_TRADITIONAL_SONAR));
                    }
                } else {
                    if value == 646 {
                        assert(Keycode::spec_from_code(value) == Some(Keycode::KEY_CLEARVU_SONAR));
                    }
                }
            } else {
                if value < 648 {
                    if value == 647 {
                        assert(Keycode::spec_from_code(value) == Some(Keycode::KEY_SIDEVU_SONAR));
                    }
                } else {
                    if value == 648 {
                        assert(Keycode::spec_from_code(value) == Some(Keycode::KEY_NAV_INFO));
                    }
                }
            }
        } else {
            if value < 657 {
                if value < 656 {
                    if value == 649 {
                        assert(Keycode::spec_from_code(value) == Some(Keycode::KEY_BRIGHTNESS_MENU));
                    }
                } else {
                    if value == 656 {
                        assert(Keycode::spec_from_code(value) == Some(Keycode::KEY_MACRO1));
                    }
                }
            } else {
                if value < 658 {
                    if value == 657 {
                        assert(Keycode::spec_from_code(value) == Some(Keycode::KEY_MACRO2));
                    }
                } else {
                    if value == 658 {
                        assert(Keycode::spec_from_code(value) == Some(Keycode::KEY_MACRO3));
                    }
                }
            }
        }
    } else {
        if value < 663 {
            if value < 661 {
                if value < 660 {
                    if value == 659 {
                        assert(Keycode::spec_from_code(value) == Some(Keycode::KEY_MACRO4));
                    }
                } else {
                    if value == 660 {
                        assert(Keycode::spec_from_code(value) == Some(Keycode::KEY_MACRO5));
                    }
                }
            } else {
                if value < 662 {
                    if value == 661 {
                        assert(Keycode::spec_from_code(value) == Some(Keycode::KEY_MACRO6));
                    }
                } else {
                    if value == 662 {
                        assert(Keycode::spec_from_code(value) == Some(Keycode::KEY_MACRO7));
                    }
                }
            }
        } else {
            if value < 665 {
                if value < 664 {
                    if value == 663 {
                        assert(Keycode::spec_from_code(value) == Some(Keycode::KEY_MACRO8));
                    }
                } else {
                    if value == 664 {
                        assert(Keycode::spec_from_code(value) == Some(Keycode::KEY_MACRO9));
                    }
                }
            } else {
                if value < 666 {
                    if value == 665 {
                        assert(Keycode::spec_from_code(value) == Some(Keycode::KEY_MACRO10));
                    }
                } else {
                    if value == 666 {
                        assert(Keycode::spec_from_code(value) == Some(Keycode::KEY_MACRO11));
                    }
                }
            }
        }
    }
}

proof fn lemma_from_code_sound_30(value: u16)
    requires
        667 <= value < 683,
    ensures
        Keycode::spec_from_code(value) matches Some(k) ==> k.spec_code() == value,
{
    if value < 675 {
        if value < 671 {
            if value < 669 {
                if value < 668 {
                    if value == 667 {
                        assert(Keycode::spec_from_code(value) == Some(Keycode::KEY_MACRO12));
                    }
                } else {
                    if value == 668 {
                        assert(Keycode::spec_from_code(value) == Some(Keycode::KEY_MACRO13));
                    }
                }
            } else {
                if value < 670 {
                    if value == 669 {
                        assert(Keycode::spec_from_code(value) == Some(Keycode::KEY_MACRO14));
                    }
                } else {
                    if value == 670 {
                        assert(Keycode::spec_from_code(value) == Some(Keycode::KEY_MACRO15));
                    }
                }
            }
        } else {
            if value < 673 {
                if value < 672 {
                    if value == 671 {
                        assert(Keycode::spec_from_code(value) == Some(Keycode::KEY_MACRO16));
                    }
                } else {
                    if value == 672 {
                        assert(Keycode::spec_from_code(value) == Some(Keycode::KEY_MACRO17));
                    }
                }
            } else {
                if value < 674 {
                    if value == 673 {
                        assert(Keycode::spec_from_code(value) == Some(Keycode::KEY_MACRO18));
                    }
                } else {
                    if value == 674 {
                        assert(Keycode::spec_from_code(value) == Some(Keycode::KEY_MACRO19));
                    }
                }
            }
        }
    } else {
        if value < 679 {
            if value < 677 {
                if value < 676 {
                    if value == 675 {
                        assert(Keycode::spec_from_code(value) == Some(Keycode::KEY_MACRO20));
                    }
                } else {
                    if value == 676 {
                        assert(Keycode::spec_from_code(value) == Some(Keycode::KEY_MACRO21));
                    }
                }
            } else {
                if value < 678 {
                    if value == 677 {
                        assert(Keycode::spec_from_code(value) == Some(Keycode::KEY_MACRO22));
                    }
                } else {
                    if value == 678 {
                        assert(Keycode::spec_from_code(value) == Some(Keycode::KEY_MACRO23));
                    }
                }
            }
        } else {
            if value < 681 {
                if value < 680 {
                    if value == 679 {
                        assert(Keycode::spec_from_code(value) == Some(Keycode::KEY_MACRO24));
                    }
                } else {
                    if value == 680 {
                        assert(Keycode::spec_from_code(value) == Some(Keycode::KEY_MACRO25));
                    }
                }
            } else {
                if value < 682 {
                    if value == 681 {
                        assert(Keycode::spec_from_code(value) == Some(Keycode::KEY_MACRO26));
                    }
                } else {
                    if value == 682 {
                        assert(Keycode::spec_from_code(value) == Some(Keycode::KEY_MACRO27));
                    }
                }
            }
        }
    }
}

proof fn lemma_from_code_sound_31(value: u16)
    requires
        683 <= value < 65536,
    ensures
        Keycode::spec_from_code(value) matches Some(k) ==> k.spec_code() == value,
{
    if value < 693 {
        if value < 689 {
            if value < 685 {
                if value < 684 {
                    if value == 683 {
                        assert(Keycode::spec_from_code(value) == Some(Keycode::KEY_MACRO28));
                    }
                } else {
                    if value == 684 {
                        assert(Keycode::spec_from_code(value) == Some(Keycode::KEY_MACRO29));
                    }
                }
            } else {
                if value < 688 {
                    if value == 685 {
                        assert(Keycode::spec_from_code(value) == Some(Keycode::KEY_MACRO30));
                    }
                } else {
                    if value == 688 {
                        assert(Keycode::spec_from_code(value) == Some(Keycode::KEY_MACRO_RECORD_START));
                    }
                }
            }
        } else {
            if value < 691 {
                if value < 690 {
                    if value == 689 {
                        assert(Keycode::spec_from_code(value) == Some(Keycode::KEY_MACRO_RECORD_STOP));
                    }
                } else {
                    if value == 690 {
                        assert(Keycode::spec_from_code(value) == Some(Keycode::KEY_MACRO_PRESET_CYCLE));
                    }
                }
            } else {
                if value < 692 {
                    if value == 691 {
                        assert(Keycode::spec_from_code(value) == Some(Keycode::KEY_MACRO_PRESET1));
                    }
                } else {
                    if value == 692 {
                        assert(Keycode::spec_from_code(value) == Some(Keycode::KEY_MACRO_PRESET2));
                    }
                }
            }
        }
    } else {
        if value < 699 {
            if value < 697 {
                if value < 696 {
                    if value == 693 {
                        assert(Keycode::spec_from_code(value) == Some(Keycode::KEY_MACRO_PRESET3));
                    }
                } else {
                    if value == 696 {
                        assert(Keycode::spec_from_code(value) == Some(Keycode::KEY_KBD_LCD_MENU1));
                    }
                }
            } else {
                if value < 698 {
                    if value == 697 {
                        assert(Keycode::spec_from_code(value) == Some(Keycode::KEY_KBD_LCD_MENU2));
                    }
                } else {
                    if value == 698 {
                        assert(Keycode::spec_from_code(value) == Some(Keycode::KEY_KBD_LCD_MENU3));
                    }
                }
            }
        } else {
            if value < 767 {
                if value < 700 {
                    if value == 699 {
                        assert(Keycode::spec_from_code(value) == Some(Keycode::KEY_KBD_LCD_MENU4));
                    }
                } else {
                    if value == 700 {
                        assert(Keycode::spec_from_code(value) == Some(Keycode::KEY_KBD_LCD_MENU5));
                    }
                }
            } else {
                if value < 768 {
                    if value == 767 {
                        assert(Keycode::spec_from_code(value) == Some(Keycode::KEY_MAX));
                    }
                } else {
                    if value == 768 {
                        assert(Keycode::spec_from_code(value) == Some(Keycode::KEY_CNT));
                    }
                }
            }
        }
    }
}

/// A numeric value names only the key code that has that value.
pub proof fn lemma_from_code_sound(value: u16)
    ensures
        Keycode::spec_from_code(value) matches Some(k) ==> k.spec_code() == value,
{
    if value < 362 {
        if value < 127 {
            if value < 63 {
                if value < 31 {
                    if value < 15 {
                        lemma_from_code_sound_0(value);
                    } else {
                        lemma_from_code_sound_1(value);
                    }
                } else {
                    if value < 47 {
                        lemma_from_code_sound_2(value);
                    } else {
                        lemma_from_code_sound_3(value);
                    }
                }
            } else {
                if value < 95 {
                    if value < 78 {
                        lemma_from_code_sound_4(value);
                    } else {
                        lemma_from_code_sound_5(value);
                    }
                } else {
                    if value < 111 {
                        lemma_from_code_sound_6(value);
                    } else {
                        lemma_from_code_sound_7(value);
                    }
                }
            }
        } else {
            if value < 190 {
                if value < 158 {
                    if value < 142 {
                        lemma_from_code_sound_8(value);
                    } else {
                        lemma_from_code_sound_9(value);
                    }
                } else {
                    if value < 174 {
                        lemma_from_code_sound_10(value);
                    } else {
                        lemma_from_code_sound_11(value);
                    }
                }
            } else {
                if value < 227 {
                    if value < 211 {
                        lemma_from_code_sound_12(value);
                    } else {
                        lemma_from_code_sound_13(value);
                    }
                } else {
                    if value < 243 {
                        lemma_from_code_sound_14(value);
                    } else {
                        lemma_from_code_sound_15(value);
                    }
                }
            }
        }
    } else {
        if value < 517 {
            if value < 425 {
                if value < 393 {
                    if value < 377 {
                        lemma_from_code_sound_16(value);
                    } else {
                        lemma_from_code_sound_17(value);
                    }
                } else {
                    if value < 409 {
                        lemma_from_code_sound_18(value);
                    } else {
                        lemma_from_code_sound_19(value);
                    }
                }
            } else {
                if value < 469 {
                    if value < 440 {
                        lemma_from_code_sound_20(value);
                    } else {
                        lemma_from_code_sound_21(value);
                    }
                } else {
                    if value < 485 {
                        lemma_from_code_sound_22(value);
                    } else {
                        lemma_from_code_sound_23(value);
                    }
                }
            }
        } else {
            if value < 629 {
                if value < 578 {
                    if value < 532 {
                        lemma_from_code_sound_24(value);
                    } else {
                        lemma_from_code_sound_25(value);
                    }
                } else {
                    if value < 613 {
                        lemma_from_code_sound_26(value);
                    } else {
                        lemma_from_code_sound_27(value);
                    }
                }
            } else {
                if value < 667 {
                    if value < 645 {
                        lemma_from_code_sound_28(value);
                    } else {
                        lemma_from_code_sound_29(value);
                    }
                } else {
                    if value < 683 {
                        lemma_from_code_sound_30(value);
                    } else {
                        lemma_from_code_sound_31(value);
                    }
                }
            }
        }
    }
}

/// The name that `linux/input-event-codes.h` gives the number `value`: the
/// first `KEY_*` constant defined with that value; empty where no key
/// constant has it.
pub open spec fn kernel_key_name(value: u16) -> Seq<char> {
    if value < 362 {
        if value < 127 {
            if value < 63 {
                if value < 31 {
                    if value < 15 {
                        if value < 7 {
                            if value < 3 {
                                if value < 1 {
                                    if value == 0 {
                                        "KEY_RESERVED"@
                                    } else {
                                        Seq::empty()
                                    }
                                } else {
                                    if value < 2 {
                                        if value == 1 {
                                            "KEY_ESC"@
                                        } else {
                                            Seq::empty()
                                        }
                                    } else {
                                        if value == 2 {
                                            "KEY_1"@
                                        } else {
                                            Seq::empty()
                                        }
                                    }
                                }
                            } else {
                                if value < 5 {
                                    if value < 4 {
                                        if value == 3 {
                                            "KEY_2"@
                                        } else {
                                            Seq::empty()
                                        }
                                    } else {
                                        if value == 4 {
                                            "KEY_3"@
                                        } else {
                                            Seq::empty()
                                        }
                                    }
                                } else {
                                    if value < 6 {
                                        if value == 5 {
                                            "KEY_4"@
                                        } else {
                                            Seq::empty()
                                        }
                                    } else {
                                        if value == 6 {
                                            "KEY_5"@
                                        } else {
                                            Seq::empty()
                                        }
                                    }
                                }
                            }
                        } else {
                            if value < 11 {
                                if value < 9 {
                                    if value < 8 {
                                        if value == 7 {
                                            "KEY_6"@
                                        } else {
                                            Seq::empty()
                                        }
                                    } else {
                                        if value == 8 {
                                            "KEY_7"@
                                        } else {
                                            Seq::empty()
                                        }
                                    }
                                } else {
                                    if value < 10 {
                                        if value == 9 {
                                            "KEY_8"@
                                        } else {
                                            Seq::empty()
                                        }
                                    } else {
                                        if value == 10 {
                                            "KEY_9"@
                                        } else {
                                            Seq::empty()
                                        }
                                    }
                                }
                            } else {
                                if value < 13 {
                                    if value < 12 {
                                        if value == 11 {
                                            "KEY_0"@
                                        } else {
                                            Seq::empty()
                                        }
                                    } else {
                                        if value == 12 {
                                            "KEY_MINUS"@
                                        } else {
                                            Seq::empty()
                                        }
                                    }
                                } else {
                                    if value < 14 {
                                        if value == 13 {
                                            "KEY_EQUAL"@
                                        } else {
                                            Seq::empty()
                                        }
                                    } else {
                                        if value == 14 {
                                            "KEY_BACKSPACE"@
                                        } else {
                                            Seq::empty()
                                        }
                                    }
                                }
                            }
                        }
                    } else {
                        if value < 23 {
                            if value < 19 {
                                if value < 17 {
                                    if value < 16 {
                                        if value == 15 {
                                            "KEY_TAB"@
                                        } else {
                                            Seq::empty()
                                        }
                                    } else {
                                        if value == 16 {
                                            "KEY_Q"@
                                        } else {
                                            Seq::empty()
                                        }
                                    }
                                } else {
                                    if value < 18 {
                                        if value == 17 {
                                            "KEY_W"@
                                        } else {
                                            Seq::empty()
                                        }
                                    } else {
                                        if value == 18 {
                                            "KEY_E"@
                                        } else {
                                            Seq::empty()
                                        }
                                    }
                                }
                            } else {
                                if value < 21 {
                                    if value < 20 {
                                        if value == 19 {
                                            "KEY_R"@
                                        } else {
                                            Seq::empty()
                                        }
                                    } else {
                                        if value == 20 {
                                            "KEY_T"@
                                        } else {
                                            Seq::empty()
                                        }
                                    }
                                } else {
                                    if value < 22 {
                                        if value == 21 {
                                            "KEY_Y"@
                                        } else {
                                            Seq::empty()
                                        }
                                    } else {
                                        if value == 22 {
                                            "KEY_U"@
                                        } else {
                                            Seq::empty()
                                        }
                                    }
                                }
                            }
                        } else {
                            if value < 27 {
                                if value < 25 {
                                    if value < 24 {
                                        if value == 23 {
                                            "KEY_I"@
                                        } else {
                                            Seq::empty()
                                        }
                                    } else {
                                        if value == 24 {
                                            "KEY_O"@
                                        } else {
                                            Seq::empty()
                                        }
                                    }
                                } else {
                                    if value < 26 {
                                        if value == 25 {
                                            "KEY_P"@
                                        } else {
                                            Seq::empty()
                                        }
                                    } else {
                                        if value == 26 {
                                            "KEY_LEFTBRACE"@
                                        } else {
                                            Seq::empty()
                                        }
                                    }
                                }
                            } else {
                                if value < 29 {
                                    if value < 28 {
                                        if value == 27 {
                                            "KEY_RIGHTBRACE"@
                                        } else {
                                            Seq::empty()
                                        }
                                    } else {
                                        if value == 28 {
                                            "KEY_ENTER"@
                                        } else {
                                            Seq::empty()
                                        }
                                    }
                                } else {
                                    if value < 30 {
                                        if value == 29 {
                                            "KEY_LEFTCTRL"@
                                        } else {
                                            Seq::empty()
                                        }
                                    } else {
                                        if value == 30 {
                                            "KEY_A"@
                                        } else {
                                            Seq::empty()
                                        }
                                    }
                                }
                            }
                        }
                    }
                } else {
                    if value < 47 {
                        if value < 39 {
                            if value < 35 {
                                if value < 33 {
                                    if value < 32 {
                                        if value == 31 {
                                            "KEY_S"@
                                        } else {
                                            Seq::empty()
                                        }
                                    } else {
                                        if value == 32 {
                                            "KEY_D"@
                                        } else {
                                            Seq::empty()
                                        }
                                    }
                                } else {
                                    if value < 34 {
                                        if value == 33 {
                                            "KEY_F"@
                                        } else {
                                            Seq::empty()
                                        }
                                    } else {
                                        if value == 34 {
                                            "KEY_G"@
                                        } else {
                                            Seq::empty()
                                        }
                                    }
                                }
                            } else {
                                if value < 37 {
                                    if value < 36 {
                                        if value == 35 {
                                            "KEY_H"@
                                        } else {
                                            Seq::empty()
                                        }
                                    } else {
                                        if value == 36 {
                                            "KEY_J"@
                                        } else {
                                            Seq::empty()
                                        }
                                    }
                                } else {
                                    if value < 38 {
                                        if value == 37 {
                                            "KEY_K"@
                                        } else {
                                            Seq::empty()
                                        }
                                    } else {
                                        if value == 38 {
                                            "KEY_L"@
                                        } else {
                                            Seq::empty()
                                        }
                                    }
                                }
                            }
                        } else {
                            if value < 43 {
                                if value < 41 {
                                    if value < 40 {
                                        if value == 39 {
                                            "KEY_SEMICOLON"@
                                        } else {
                                            Seq::empty()
                                        }
                                    } else {
                                        if value == 40 {
                                            "KEY_APOSTROPHE"@
                                        } else {
                                            Seq::empty()
                                        }
                                    }
                                } else {
                                    if value < 42 {
                                        if value == 41 {
                                            "KEY_GRAVE"@
                                        } else {
                                            Seq::empty()
                                        }
                                    } else {
                                        if value == 42 {
                                            "KEY_LEFTSHIFT"@
                                        } else {
                                            Seq::empty()
                                        }
                                    }
                                }
                            } else {
                                if value < 45 {
                                    if value < 44 {
                                        if value == 43 {
                                            "KEY_BACKSLASH"@
                                        } else {
                                            Seq::empty()
                                        }
                                    } else {
                                        if value == 44 {
                                            "KEY_Z"@
                                        } else {
                                            Seq::empty()
                                        }
                                    }
                                } else {
                                    if value < 46 {
                                        if value == 45 {
                                            "KEY_X"@
                                        } else {
                                            Seq::empty()
                                        }
                                    } else {
                                        if value == 46 {
                                            "KEY_C"@
                                        } else {
                                            Seq::empty()
                                        }
                                    }
                                }
                            }
                        }
                    } else {
                        if value < 55 {
                            if value < 51 {
                                if value < 49 {
                                    if value < 48 {
                                        if value == 47 {
                                            "KEY_V"@
                                        } else {
                                            Seq::empty()
                                        }
                                    } else {
                                        if value == 48 {
                                            "KEY_B"@
                                        } else {
                                            Seq::empty()
                                        }
                                    }
                                } else {
                                    if value < 50 {
                                        if value == 49 {
                                            "KEY_N"@
                                        } else {
                                            Seq::empty()
                                        }
                                    } else {
                                        if value == 50 {
                                            "KEY_M"@
                                        } else {
                                            Seq::empty()
                                        }
                                    }
                                }
                            } else {
                                if value < 53 {
                                    if value < 52 {
                                        if value == 51 {
                                            "KEY_COMMA"@
                                        } else {
                                            Seq::empty()
                                        }
                                    } else {
                                        if value == 52 {
                                            "KEY_DOT"@
                                        } else {
                                            Seq::empty()
                                        }
                                    }
                                } else {
                                    if value < 54 {
                                        if value == 53 {
                                            "KEY_SLASH"@
                                        } else {
                                            Seq::empty()
                                        }
                                    } else {
                                        if value == 54 {
                                            "KEY_RIGHTSHIFT"@
                                        } else {
                                            Seq::empty()
                                        }
                                    }
                                }
                            }
                        } else {
                            if value < 59 {
                                if value < 57 {
                                    if value < 56 {
                                        if value == 55 {
                                            "KEY_KPASTERISK"@
                                        } else {
                                            Seq::empty()
                                        }
                                    } else {
                                        if value == 56 {
                                            "KEY_LEFTALT"@
                                        } else {
                                            Seq::empty()
                                        }
                                    }
                                } else {
                                    if value < 58 {
                                        if value == 57 {
                                            "KEY_SPACE"@
                                        } else {
                                            Seq::empty()
                                        }
                                    } else {
                                        if value == 58 {
                                            "KEY_CAPSLOCK"@
                                        } else {
                                            Seq::empty()
                                        }
                                    }
                                }
                            } else {
                                if value < 61 {
                                    if value < 60 {
                                        if value == 59 {
                                            "KEY_F1"@
                                        } else {
                                            Seq::empty()
                                        }
                                    } else {
                                        if value == 60 {
                                            "KEY_F2"@
                                        } else {
                                            Seq::empty()
                                        }
                                    }
                                } else {
                                    if value < 62 {
                                        if value == 61 {
                                            "KEY_F3"@
                                        } else {
                                            Seq::empty()
                                        }
                                    } else {
                                        if value == 62 {
                                            "KEY_F4"@
                                        } else {
                                            Seq::empty()
                                        }
                                    }
                                }
                            }
                        }
                    }
                }
            } else {
                if value < 95 {
                    if value < 78 {
                        if value < 70 {
                            if value < 66 {
                                if value < 64 {
                                    if value == 63 {
                                        "KEY_F5"@
                                    } else {
                                        Seq::empty()
                                    }
                                } else {
                                    if value < 65 {
                                        if value == 64 {
                                            "KEY_F6"@
                                        } else {
                                            Seq::empty()
                                        }
                                    } else {
                                        if value == 65 {
                                            "KEY_F7"@
                                        } else {
                                            Seq::empty()
                                        }
                                    }
                                }
                            } else {
                                if value < 68 {
                                    if value < 67 {
                                        if value == 66 {
                                            "KEY_F8"@
                                        } else {
                                            Seq::empty()
                                        }
                                    } else {
                                        if value == 67 {
                                            "KEY_F9"@
                                        } else {
                                            Seq::empty()
                                        }
                                    }
                                } else {
                                    if value < 69 {
                                        if value == 68 {
                                            "KEY_F10"@
                                        } else {
                                            Seq::empty()
                                        }
                                    } else {
                                        if value == 69 {
                                            "KEY_NUMLOCK"@
                                        } else {
                                            Seq::empty()
                                        }
                                    }
                                }
                            }
                        } else {
                            if value < 74 {
                                if value < 72 {
                                    if value < 71 {
                                        if value == 70 {
                                            "KEY_SCROLLLOCK"@
                                        } else {
                                            Seq::empty()
                                        }
                                    } else {
                                        if value == 71 {
                                            "KEY_KP7"@
                                        } else {
                                            Seq::empty()
                                        }
                                    }
                                } else {
                                    if value < 73 {
                                        if value == 72 {
                                            "KEY_KP8"@
                                        } else {
                                            Seq::empty()
                                        }
                                    } else {
                                        if value == 73 {
                                            "KEY_KP9"@
                                        } else {
                                            Seq::empty()
                                        }
                                    }
                                }
                            } else {
                                if value < 76 {
                                    if value < 75 {
                                        if value == 74 {
                                            "KEY_KPMINUS"@
                                        } else {
                                            Seq::empty()
                                        }
                                    } else {
                                        if value == 75 {
                                            "KEY_KP4"@
                                        } else {
                                            Seq::empty()
                                        }
                                    }
                                } else {
                                    if value < 77 {
                                        if value == 76 {
                                            "KEY_KP5"@
                                        } else {
                                            Seq::empty()
                                        }
                                    } else {
                                        if value == 77 {
                                            "KEY_KP6"@
                                        } else {
                                            Seq::empty()
                                        }
                                    }
                                }
                            }
                        }
                    } else {
                        if value < 87 {
                            if value < 82 {
                                if value < 80 {
                                    if value < 79 {
                                        if value == 78 {
                                            "KEY_KPPLUS"@
                                        } else {
                                            Seq::empty()
                                        }
                                    } else {
                                        if value == 79 {
                                            "KEY_KP1"@
                                        } else {
                                            Seq::empty()
                                        }
                                    }
                                } else {
                                    if value < 81 {
                                        if value == 80 {
                                            "KEY_KP2"@
                                        } else {
                                            Seq::empty()
                                        }
                                    } else {
                                        if value == 81 {
                                            "KEY_KP3"@
                                        } else {
                                            Seq::empty()
                                        }
                                    }
                                }
                            } else {
                                if value < 85 {
                                    if value < 83 {
                                        if value == 82 {
                                            "KEY_KP0"@
                                        } else {
                                            Seq::empty()
                                        }
                                    } else {
                                        if value == 83 {
                                            "KEY_KPDOT"@
                                        } else {
                                            Seq::empty()
                                        }
                                    }
                                } else {
                                    if value < 86 {
                                        if value == 85 {
                                            "KEY_ZENKAKUHANKAKU"@
                                        } else {
                                            Seq::empty()
                                        }
                                    } else {
                                        if value == 86 {
                                            "KEY_102ND"@
                                        } else {
                                            Seq::empty()
                                        }
                                    }
                                }
                            }
                        } else {
                            if value < 91 {
                                if value < 89 {
                                    if value < 88 {
                                        if value == 87 {
                                            "KEY_F11"@
                                        } else {
                                            Seq::empty()
                                        }
                                    } else {
                                        if value == 88 {
                                            "KEY_F12"@
                                        } else {
                                            Seq::empty()
                                        }
                                    }
                                } else {
                                    if value < 90 {
                                        if value == 89 {
                                            "KEY_RO"@
                                        } else {
                                            Seq::empty()
                                        }
                                    } else {
                                        if value == 90 {
                                            "KEY_KATAKANA"@
                                        } else {
                                            Seq::empty()
                                        }
                                    }
                                }
                            } else {
                                if value < 93 {
                                    if value < 92 {
                                        if value == 91 {
                                            "KEY_HIRAGANA"@
                                        } else {
                                            Seq::empty()
                                        }
                                    } else {
                                        if value == 92 {
                                            "KEY_HENKAN"@
                                        } else {
                                            Seq::empty()
                                        }
                                    }
                                } else {
                                    if value < 94 {
                                        if value == 93 {
                                            "KEY_KATAKANAHIRAGANA"@
                                        } else {
                                            Seq::empty()
                                        }
                                    } else {
                                        if value == 94 {
                                            "KEY_MUHENKAN"@
                                        } else {
                                            Seq::empty()
                                        }
                                    }
                                }
                            }
                        }
                    }
                } else {
                    if value < 111 {
                        if value < 103 {
                            if value < 99 {
                                if value < 97 {
                                    if value < 96 {
                                        if value == 95 {
                                            "KEY_KPJPCOMMA"@
                                        } else {
                                            Seq::empty()
                                        }
                                    } else {
                                        if value == 96 {
                                            "KEY_KPENTER"@
                                        } else {
                                            Seq::empty()
                                        }
                                    }
                                } else {
                                    if value < 98 {
                                        if value == 97 {
                                            "KEY_RIGHTCTRL"@
                                        } else {
                                            Seq::empty()
                                        }
                                    } else {
                                        if value == 98 {
                                            "KEY_KPSLASH"@
                                        } else {
                                            Seq::empty()
                                        }
                                    }
                                }
                            } else {
                                if value < 101 {
                                    if value < 100 {
                                        if value == 99 {
                                            "KEY_SYSRQ"@
                                        } else {
                                            Seq::empty()
                                        }
                                    } else {
                                        if value == 100 {
                                            "KEY_RIGHTALT"@
                                        } else {
                                            Seq::empty()
                                        }
                                    }
                                } else {
                                    if value < 102 {
                                        if value == 101 {
                                            "KEY_LINEFEED"@
                                        } else {
                                            Seq::empty()
                                        }
                                    } else {
                                        if value == 102 {
                                            "KEY_HOME"@
                                        } else {
                                            Seq::empty()
                                        }
                                    }
                                }
                            }
                        } else {
                            if value < 107 {
                                if value < 105 {
                                    if value < 104 {
                                        if value == 103 {
                                            "KEY_UP"@
                                        } else {
                                            Seq::empty()
                                        }
                                    } else {
                                        if value == 104 {
                                            "KEY_PAGEUP"@
                                        } else {
                                            Seq::empty()
                                        }
                                    }
                                } else {
                                    if value < 106 {
                                        if value == 105 {
                                            "KEY_LEFT"@
                                        } else {
                                            Seq::empty()
                                        }
                                    } else {
                                        if value == 106 {
                                            "KEY_RIGHT"@
                                        } else {
                                            Seq::empty()
                                        }
                                    }
                                }
                            } else {
                                if value < 109 {
                                    if value < 108 {
                                        if value == 107 {
                                            "KEY_END"@
                                        } else {
                                            Seq::empty()
                                        }
                                    } else {
                                        if value == 108 {
                                            "KEY_DOWN"@
                                        } else {
                                            Seq::empty()
                                        }
                                    }
                                } else {
                                    if value < 110 {
                                        if value == 109 {
                                            "KEY_PAGEDOWN"@
                                        } else {
                                            Seq::empty()
                                        }
                                    } else {
                                        if value == 110 {
                                            "KEY_INSERT"@
                                        } else {
                                            Seq::empty()
                                        }
                                    }
                                }
                            }
                        }
                    } else {
                        if value < 119 {
                            if value < 115 {
                                if value < 113 {
                                    if value < 112 {
                                        if value == 111 {
                                            "KEY_DELETE"@
                                        } else {
                                            Seq::empty()
                                        }
                                    } else {
                                        if value == 112 {
                                            "KEY_MACRO"@
                                        } else {
                                            Seq::empty()
                                        }
                                    }
                                } else {
                                    if value < 114 {
                                        if value == 113 {
                                            "KEY_MUTE"@
                                        } else {
                                            Seq::empty()
                                        }
                                    } else {
                                        if value == 114 {
                                            "KEY_VOLUMEDOWN"@
                                        } else {
                                            Seq::empty()
                                        }
                                    }
                                }
                            } else {
                                if value < 117 {
                                    if value < 116 {
                                        if value == 115 {
                                            "KEY_VOLUMEUP"@
                                        } else {
                                            Seq::empty()
                                        }
                                    } else {
                                        if value == 116 {
                                            "KEY_POWER"@
                                        } else {
                                            Seq::empty()
                                        }
                                    }
                                } else {
                                    if value < 118 {
                                        if value == 117 {
                                            "KEY_KPEQUAL"@
                                        } else {
                                            Seq::empty()
                                        }
                                    } else {
                                        if value == 118 {
                                            "KEY_KPPLUSMINUS"@
                                        } else {
                                            Seq::empty()
                                        }
                                    }
                                }
                            }
                        } else {
                            if value < 123 {
                                if value < 121 {
                                    if value < 120 {
                                        if value == 119 {
                                            "KEY_PAUSE"@
                                        } else {
                                            Seq::empty()
                                        }
                                    } else {
                                        if value == 120 {
                                            "KEY_SCALE"@
                                        } else {
                                            Seq::empty()
                                        }
                                    }
                                } else {
                                    if value < 122 {
                                        if value == 121 {
                                            "KEY_KPCOMMA"@
                                        } else {
                                            Seq::empty()
                                        }
                                    } else {
                                        if value == 122 {
                                            "KEY_HANGEUL"@
                                        } else {
                                            Seq::empty()
                                        }
                                    }
                                }
                            } else {
                                if value < 125 {
                                    if value < 124 {
                                        if value == 123 {
                                            "KEY_HANJA"@
                                        } else {
                                            Seq::empty()
                                        }
                                    } else {
                                        if value == 124 {
                                            "KEY_YEN"@
                                        } else {
                                            Seq::empty()
                                        }
                                    }
                                } else {
                                    if value < 126 {
                                        if value == 125 {
                                            "KEY_LEFTMETA"@
                                        } else {
                                            Seq::empty()
                                        }
                                    } else {
                                        if value == 126 {
                                            "KEY_RIGHTMETA"@
                                        } else {
                                            Seq::empty()
                                        }
                                    }
                                }
                            }
                        }
                    }
                }
            }
        } else {
            if value < 190 {
                if value < 158 {
                    if value < 142 {
                        if value < 134 {
                            if value < 130 {
                                if value < 128 {
                                    if value == 127 {
                                        "KEY_COMPOSE"@
                                    } else {
                                        Seq::empty()
                                    }
                                } else {
                                    if value < 129 {
                                        if value == 128 {
                                            "KEY_STOP"@
                                        } else {
                                            Seq::empty()
                                        }
                                    } else {
                                        if value == 129 {
                                            "KEY_AGAIN"@
                                        } else {
                                            Seq::empty()
                                        }
                                    }
                                }
                            } else {
                                if value < 132 {
                                    if value < 131 {
                                        if value == 130 {
                                            "KEY_PROPS"@
                                        } else {
                                            Seq::empty()
                                        }
                                    } else {
                                        if value == 131 {
                                            "KEY_UNDO"@
                                        } else {
                                            Seq::empty()
                                        }
                                    }
                                } else {
                                    if value < 133 {
                                        if value == 132 {
                                            "KEY_FRONT"@
                                        } else {
                                            Seq::empty()
                                        }
                                    } else {
                                        if value == 133 {
                                            "KEY_COPY"@
                                        } else {
                                            Seq::empty()
                                        }
                                    }
                                }
                            }
                        } else {
                            if value < 138 {
                                if value < 136 {
                                    if value < 135 {
                                        if value == 134 {
                                            "KEY_OPEN"@
                                        } else {
                                            Seq::empty()
                                        }
                                    } else {
                                        if value == 135 {
                                            "KEY_PASTE"@
                                        } else {
                                            Seq::empty()
                                        }
                                    }
                                } else {
                                    if value < 137 {
                                        if value == 136 {
                                            "KEY_FIND"@
                                        } else {
                                            Seq::empty()
                                        }
                                    } else {
                                        if value == 137 {
                                            "KEY_CUT"@
                                        } else {
                                            Seq::empty()
                                        }
                                    }
                                }
                            } else {
                                if value < 140 {
                                    if value < 139 {
                                        if value == 138 {
                                            "KEY_HELP"@
                                        } else {
                                            Seq::empty()
                                        }
                                    } else {
                                        if value == 139 {
                                            "KEY_MENU"@
                                        } else {
                                            Seq::empty()
                                        }
                                    }
                                } else {
                                    if value < 141 {
                                        if value == 140 {
                                            "KEY_CALC"@
                                        } else {
                                            Seq::empty()
                                        }
                                    } else {
                                        if value == 141 {
                                            "KEY_SETUP"@
                                        } else {
                                            Seq::empty()
                                        }
                                    }
                                }
                            }
                        }
                    } else {
                        if value < 150 {
                            if value < 146 {
                                if value < 144 {
                                    if value < 143 {
                                        if value == 142 {
                                            "KEY_SLEEP"@
                                        } else {
                                            Seq::empty()
                                        }
                                    } else {
                                        if value == 143 {
                                            "KEY_WAKEUP"@
                                        } else {
                                            Seq::empty()
                                        }
                                    }
                                } else {
                                    if value < 145 {
                                        if value == 144 {
                                            "KEY_FILE"@
                                        } else {
                                            Seq::empty()
                                        }
                                    } else {
                                        if value == 145 {
                                            "KEY_SENDFILE"@
                                        } else {
                                            Seq::empty()
                                        }
                                    }
                                }
                            } else {
                                if value < 148 {
                                    if value < 147 {
                                        if value == 146 {
                                            "KEY_DELETEFILE"@
                                        } else {
                                            Seq::empty()
                                        }
                                    } else {
                                        if value == 147 {
                                            "KEY_XFER"@
                                        } else {
                                            Seq::empty()
                                        }
                                    }
                                } else {
                                    if value < 149 {
                                        if value == 148 {
                                            "KEY_PROG1"@
                                        } else {
                                            Seq::empty()
                                        }
                                    } else {
                                        if value == 149 {
                                            "KEY_PROG2"@
                                        } else {
                                            Seq::empty()
                                        }
                                    }
                                }
                            }
                        } else {
                            if value < 154 {
                                if value < 152 {
                                    if value < 151 {
                                        if value == 150 {
                                            "KEY_WWW"@
                                        } else {
                                            Seq::empty()
                                        }
                                    } else {
                                        if value == 151 {
                                            "KEY_MSDOS"@
                                        } else {
                                            Seq::empty()
                                        }
                                    }
                                } else {
                                    if value < 153 {
                                        if value == 152 {
                                            "KEY_COFFEE"@
                                        } else {
                                            Seq::empty()
                                        }
                                    } else {
                                        if value == 153 {
                                            "KEY_ROTATE_DISPLAY"@
                                        } else {
                                            Seq::empty()
                                        }
                                    }
                                }
                            } else {
                                if value < 156 {
                                    if value < 155 {
                                        if value == 154 {
                                            "KEY_CYCLEWINDOWS"@
                                        } else {
                                            Seq::empty()
                                        }
                                    } else {
                                        if value == 155 {
                                            "KEY_MAIL"@
                                        } else {
                                            Seq::empty()
                                        }
                                    }
                                } else {
                                    if value < 157 {
                                        if value == 156 {
                                            "KEY_BOOKMARKS"@
                                        } else {
                                            Seq::empty()
                                        }
                                    } else {
                                        if value == 157 {
                                            "KEY_COMPUTER"@
                                        } else {
                                            Seq::empty()
                                        }
                                    }
                                }
                            }
                        }
                    }
                } else {
                    if value < 174 {
                        if value < 166 {
                            if value < 162 {
                                if value < 160 {
                                    if value < 159 {
                                        if value == 158 {
                                            "KEY_BACK"@
                                        } else {
                                            Seq::empty()
                                        }
                                    } else {
                                        if value == 159 {
                                            "KEY_FORWARD"@
                                        } else {
                                            Seq::empty()
                                        }
                                    }
                                } else {
                                    if value < 161 {
                                        if value == 160 {
                                            "KEY_CLOSECD"@
                                        } else {
                                            Seq::empty()
                                        }
                                    } else {
                                        if value == 161 {
                                            "KEY_EJECTCD"@
                                        } else {
                                            Seq::empty()
                                        }
                                    }
                                }
                            } else {
                                if value < 164 {
                                    if value < 163 {
                                        if value == 162 {
                                            "KEY_EJECTCLOSECD"@
                                        } else {
                                            Seq::empty()
                                        }
                                    } else {
                                        if value == 163 {
                                            "KEY_NEXTSONG"@
                                        } else {
                                            Seq::empty()
                                        }
                                    }
                                } else {
                                    if value < 165 {
                                        if value == 164 {
                                            "KEY_PLAYPAUSE"@
                                        } else {
                                            Seq::empty()
                                        }
                                    } else {
                                        if value == 165 {
                                            "KEY_PREVIOUSSONG"@
                                        } else {
                                            Seq::empty()
                                        }
                                    }
                                }
                            }
                        } else {
                            if value < 170 {
                                if value < 168 {
                                    if value < 167 {
                                        if value == 166 {
                                            "KEY_STOPCD"@
                                        } else {
                                            Seq::empty()
                                        }
                                    } else {
                                        if value == 167 {
                                            "KEY_RECORD"@
                                        } else {
                                            Seq::empty()
                                        }
                                    }
                                } else {
                                    if value < 169 {
                                        if value == 168 {
                                            "KEY_REWIND"@
                                        } else {
                                            Seq::empty()
                                        }
                                    } else {
                                        if value == 169 {
                                            "KEY_PHONE"@
                                        } else {
                                            Seq::empty()
                                        }
                                    }
                                }
                            } else {
                                if value < 172 {
                                    if value < 171 {
                                        if value == 170 {
                                            "KEY_ISO"@
                                        } else {
                                            Seq::empty()
                                        }
                                    } else {
                                        if value == 171 {
                                            "KEY_CONFIG"@
                                        } else {
                                            Seq::empty()
                                        }
                                    }
                                } else {
                                    if value < 173 {
                                        if value == 172 {
                                            "KEY_HOMEPAGE"@
                                        } else {
                                            Seq::empty()
                                        }
                                    } else {
                                        if value == 173 {
                                            "KEY_REFRESH"@
                                        } else {
                                            Seq::empty()
                                        }
                                    }
                                }
                            }
                        }
                    } else {
                        if value < 182 {
                            if value < 178 {
                                if value < 176 {
                                    if value < 175 {
                                        if value == 174 {
                                            "KEY_EXIT"@
                                        } else {
                                            Seq::empty()
                                        }
                                    } else {
                                        if value == 175 {
                                            "KEY_MOVE"@
                                        } else {
                                            Seq::empty()
                                        }
                                    }
                                } else {
                                    if value < 177 {
                                        if value == 176 {
                                            "KEY_EDIT"@
                                        } else {
                                            Seq::empty()
                                        }
                                    } else {
                                        if value == 177 {
                                            "KEY_SCROLLUP"@
                                        } else {
                                            Seq::empty()
                                        }
                                    }
                                }
                            } else {
                                if value < 180 {
                                    if value < 179 {
                                        if value == 178 {
                                            "KEY_SCROLLDOWN"@
                                        } else {
                                            Seq::empty()
                                        }
                                    } else {
                                        if value == 179 {
                                            "KEY_KPLEFTPAREN"@
                                        } else {
                                            Seq::empty()
                                        }
                                    }
                                } else {
                                    if value < 181 {
                                        if value == 180 {
                                            "KEY_KPRIGHTPAREN"@
                                        } else {
                                            Seq::empty()
                                        }
                                    } else {
                                        if value == 181 {
                                            "KEY_NEW"@
                                        } else {
                                            Seq::empty()
                                        }
                                    }
                                }
                            }
                        } else {
                            if value < 186 {
                                if value < 184 {
                                    if value < 183 {
                                        if value == 182 {
                                            "KEY_REDO"@
                                        } else {
                                            Seq::empty()
                                        }
                                    } else {
                                        if value == 183 {
                                            "KEY_F13"@
                                        } else {
                                            Seq::empty()
                                        }
                                    }
                                } else {
                                    if value < 185 {
                                        if value == 184 {
                                            "KEY_F14"@
                                        } else {
                                            Seq::empty()
                                        }
                                    } else {
                                        if value == 185 {
                                            "KEY_F15"@
                                        } else {
                                            Seq::empty()
                                        }
                                    }
                                }
                            } else {
                                if value < 188 {
                                    if value < 187 {
                                        if value == 186 {
                                            "KEY_F16"@
                                        } else {
                                            Seq::empty()
                                        }
                                    } else {
                                        if value == 187 {
                                            "KEY_F17"@
                                        } else {
                                            Seq::empty()
                                        }
                                    }
                                } else {
                                    if value < 189 {
                                        if value == 188 {
                                            "KEY_F18"@
                                        } else {
                                            Seq::empty()
                                        }
                                    } else {
                                        if value == 189 {
                                            "KEY_F19"@
                                        } else {
                                            Seq::empty()
                                        }
                                    }
                                }
                            }
                        }
                    }
                }
            } else {
                if value < 227 {
                    if value < 211 {
                        if value < 203 {
                            if value < 194 {
                                if value < 192 {
                                    if value < 191 {
                                        if value == 190 {
                                            "KEY_F20"@
                                        } else {
                                            Seq::empty()
                                        }
                                    } else {
                                        if value == 191 {
                                            "KEY_F21"@
                                        } else {
                                            Seq::empty()
                                        }
                                    }
                                } else {
                                    if value < 193 {
                                        if value == 192 {
                                            "KEY_F22"@
                                        } else {
                                            Seq::empty()
                                        }
                                    } else {
                                        if value == 193 {
                                            "KEY_F23"@
                                        } else {
                                            Seq::empty()
                                        }
                                    }
                                }
                            } else {
                                if value < 201 {
                                    if value < 200 {
                                        if value == 194 {
                                            "KEY_F24"@
                                        } else {
                                            Seq::empty()
                                        }
                                    } else {
                                        if value == 200 {
                                            "KEY_PLAYCD"@
                                        } else {
                                            Seq::empty()
                                        }
                                    }
                                } else {
                                    if value < 202 {
                                        if value == 201 {
                                            "KEY_PAUSECD"@
                                        } else {
                                            Seq::empty()
                                        }
                                    } else {
                                        if value == 202 {
                                            "KEY_PROG3"@
                                        } else {
                                            Seq::empty()
                                        }
                                    }
                                }
                            }
                        } else {
                            if value < 207 {
                                if value < 205 {
                                    if value < 204 {
                                        if value == 203 {
                                            "KEY_PROG4"@
                                        } else {
                                            Seq::empty()
                                        }
                                    } else {
                                        if value == 204 {
                                            "KEY_ALL_APPLICATIONS"@
                                        } else {
                                            Seq::empty()
                                        }
                                    }
                                } else {
                                    if value < 206 {
                                        if value == 205 {
                                            "KEY_SUSPEND"@
                                        } else {
                                            Seq::empty()
                                        }
                                    } else {
                                        if value == 206 {
                                            "KEY_CLOSE"@
                                        } else {
                                            Seq::empty()
                                        }
                                    }
                                }
                            } else {
                                if value < 209 {
                                    if value < 208 {
                                        if value == 207 {
                                            "KEY_PLAY"@
                                        } else {
                                            Seq::empty()
                                        }
                                    } else {
                                        if value == 208 {
                                            "KEY_FASTFORWARD"@
                                        } else {
                                            Seq::empty()
                                        }
                                    }
                                } else {
                                    if value < 210 {
                                        if value == 209 {
                                            "KEY_BASSBOOST"@
                                        } else {
                                            Seq::empty()
                                        }
                                    } else {
                                        if value == 210 {
                                            "KEY_PRINT"@
                                        } else {
                                            Seq::empty()
                                        }
                                    }
                                }
                            }
                        }
                    } else {
                        if value < 219 {
                            if value < 215 {
                                if value < 213 {
                                    if value < 212 {
                                        if value == 211 {
                                            "KEY_HP"@
                                        } else {
                                            Seq::empty()
                                        }
                                    } else {
                                        if value == 212 {
                                            "KEY_CAMERA"@
                                        } else {
                                            Seq::empty()
                                        }
                                    }
                                } else {
                                    if value < 214 {
                                        if value == 213 {
                                            "KEY_SOUND"@
                                        } else {
                                            Seq::empty()
                                        }
                                    } else {
                                        if value == 214 {
                                            "KEY_QUESTION"@
                                        } else {
                                            Seq::empty()
                                        }
                                    }
                                }
                            } else {
                                if value < 217 {
                                    if value < 216 {
                                        if value == 215 {
                                            "KEY_EMAIL"@
                                        } else {
                                            Seq::empty()
                                        }
                                    } else {
                                        if value == 216 {
                                            "KEY_CHAT"@
                                        } else {
                                            Seq::empty()
                                        }
                                    }
                                } else {
                                    if value < 218 {
                                        if value == 217 {
                                            "KEY_SEARCH"@
                                        } else {
                                            Seq::empty()
                                        }
                                    } else {
                                        if value == 218 {
                                            "KEY_CONNECT"@
                                        } else {
                                            Seq::empty()
                                        }
                                    }
                                }
                            }
                        } else {
                            if value < 223 {
                                if value < 221 {
                                    if value < 220 {
                                        if value == 219 {
                                            "KEY_FINANCE"@
                                        } else {
                                            Seq::empty()
                                        }
                                    } else {
                                        if value == 220 {
                                            "KEY_SPORT"@
                                        } else {
                                            Seq::empty()
                                        }
                                    }
                                } else {
                                    if value < 222 {
                                        if value == 221 {
                                            "KEY_SHOP"@
                                        } else {
                                            Seq::empty()
                                        }
                                    } else {
                                        if value == 222 {
                                            "KEY_ALTERASE"@
                                        } else {
                                            Seq::empty()
                                        }
                                    }
                                }
                            } else {
                                if value < 225 {
                                    if value < 224 {
                                        if value == 223 {
                                            "KEY_CANCEL"@
                                        } else {
                                            Seq::empty()
                                        }
                                    } else {
                                        if value == 224 {
                                            "KEY_BRIGHTNESSDOWN"@
                                        } else {
                                            Seq::empty()
                                        }
                                    }
                                } else {
                                    if value < 226 {
                                        if value == 225 {
                                            "KEY_BRIGHTNESSUP"@
                                        } else {
                                            Seq::empty()
                                        }
                                    } else {
                                        if value == 226 {
                                            "KEY_MEDIA"@
                                        } else {
                                            Seq::empty()
                                        }
                                    }
                                }
                            }
                        }
                    }
                } else {
                    if value < 243 {
                        if value < 235 {
                            if value < 231 {
                                if value < 229 {
                                    if value < 228 {
                                        if value == 227 {
                                            "KEY_SWITCHVIDEOMODE"@
                                        } else {
                                            Seq::empty()
                                        }
                                    } else {
                                        if value == 228 {
                                            "KEY_KBDILLUMTOGGLE"@
                                        } else {
                                            Seq::empty()
                                        }
                                    }
                                } else {
                                    if value < 230 {
                                        if value == 229 {
                                            "KEY_KBDILLUMDOWN"@
                                        } else {
                                            Seq::empty()
                                        }
                                    } else {
                                        if value == 230 {
                                            "KEY_KBDILLUMUP"@
                                        } else {
                                            Seq::empty()
                                        }
                                    }
                                }
                            } else {
                                if value < 233 {
                                    if value < 232 {
                                        if value == 231 {
                                            "KEY_SEND"@
                                        } else {
                                            Seq::empty()
                                        }
                                    } else {
                                        if value == 232 {
                                            "KEY_REPLY"@
                                        } else {
                                            Seq::empty()
                                        }
                                    }
                                } else {
                                    if value < 234 {
                                        if value == 233 {
                                            "KEY_FORWARDMAIL"@
                                        } else {
                                            Seq::empty()
                                        }
                                    } else {
                                        if value == 234 {
                                            "KEY_SAVE"@
                                        } else {
                                            Seq::empty()
                                        }
                                    }
                                }
                            }
                        } else {
                            if value < 239 {
                                if value < 237 {
                                    if value < 236 {
                                        if value == 235 {
                                            "KEY_DOCUMENTS"@
                                        } else {
                                            Seq::empty()
                                        }
                                    } else {
                                        if value == 236 {
                                            "KEY_BATTERY"@
                                        } else {
                                            Seq::empty()
                                        }
                                    }
                                } else {
                                    if value < 238 {
                                        if value == 237 {
                                            "KEY_BLUETOOTH"@
                                        } else {
                                            Seq::empty()
                                        }
                                    } else {
                                        if value == 238 {
                                            "KEY_WLAN"@
                                        } else {
                                            Seq::empty()
                                        }
                                    }
                                }
                            } else {
                                if value < 241 {
                                    if value < 240 {
                                        if value == 239 {
                                            "KEY_UWB"@
                                        } else {
                                            Seq::empty()
                                        }
                                    } else {
                                        if value == 240 {
                                            "KEY_UNKNOWN"@
                                        } else {
                                            Seq::empty()
                                        }
                                    }
                                } else {
                                    if value < 242 {
                                        if value == 241 {
                                            "KEY_VIDEO_NEXT"@
                                        } else {
                                            Seq::empty()
                                        }
                                    } else {
                                        if value == 242 {
                                            "KEY_VIDEO_PREV"@
                                        } else {
                                            Seq::empty()
                                        }
                                    }
                                }
                            }
                        }
                    } else {
                        if value < 354 {
                            if value < 247 {
                                if value < 245 {
                                    if value < 244 {
                                        if value == 243 {
                                            "KEY_BRIGHTNESS_CYCLE"@
                                        } else {
                                            Seq::empty()
                                        }
                                    } else {
                                        if value == 244 {
                                            "KEY_BRIGHTNESS_AUTO"@
                                        } else {
                                            Seq::empty()
                                        }
                                    }
                                } else {
                                    if value < 246 {
                                        if value == 245 {
                                            "KEY_DISPLAY_OFF"@
                                        } else {
                                            Seq::empty()
                                        }
                                    } else {
                                        if value == 246 {
                                            "KEY_WWAN"@
                                        } else {
                                            Seq::empty()
                                        }
                                    }
                                }
                            } else {
                                if value < 352 {
                                    if value < 248 {
                                        if value == 247 {
                                            "KEY_RFKILL"@
                                        } else {
                                            Seq::empty()
                                        }
                                    } else {
                                        if value == 248 {
                                            "KEY_MICMUTE"@
                                        } else {
                                            Seq::empty()
                                        }
                                    }
                                } else {
                                    if value < 353 {
                                        if value == 352 {
                                            "KEY_OK"@
                                        } else {
                                            Seq::empty()
                                        }
                                    } else {
                                        if value == 353 {
                                            "KEY_SELECT"@
                                        } else {
                                            Seq::empty()
                                        }
                                    }
                                }
                            }
                        } else {
                            if value < 358 {
                                if value < 356 {
                                    if value < 355 {
                                        if value == 354 {
                                            "KEY_GOTO"@
                                        } else {
                                            Seq::empty()
                                        }
                                    } else {
                                        if value == 355 {
                                            "KEY_CLEAR"@
                                        } else {
                                            Seq::empty()
                                        }
                                    }
                                } else {
                                    if value < 357 {
                                        if value == 356 {
                                            "KEY_POWER2"@
                                        } else {
                                            Seq::empty()
                                        }
                                    } else {
                                        if value == 357 {
                                            "KEY_OPTION"@
                                        } else {
                                            Seq::empty()
                                        }
                                    }
                                }
                            } else {
                                if value < 360 {
                                    if value < 359 {
                                        if value == 358 {
                                            "KEY_INFO"@
                                        } else {
                                            Seq::empty()
                                        }
                                    } else {
                                        if value == 359 {
                                            "KEY_TIME"@
                                        } else {
                                            Seq::empty()
                                        }
                                    }
                                } else {
                                    if value < 361 {
                                        if value == 360 {
                                            "KEY_VENDOR"@
                                        } else {
                                            Seq::empty()
                                        }
                                    } else {
                                        if value == 361 {
                                            "KEY_ARCHIVE"@
                                        } else {
                                            Seq::empty()
                                        }
                                    }
                                }
                            }
                        }
                    }
                }
            }
        }
    } else {
        if value < 517 {
            if value < 425 {
                if value < 393 {
                    if value < 377 {
                        if value < 369 {
                            if value < 365 {
                                if value < 363 {
                                    if value == 362 {
                                        "KEY_PROGRAM"@
                                    } else {
                                        Seq::empty()
                                    }
                                } else {
                                    if value < 364 {
                                        if value == 363 {
                                            "KEY_CHANNEL"@
                                        } else {
                                            Seq::empty()
                                        }
                                    } else {
                                        if value == 364 {
                                            "KEY_FAVORITES"@
                                        } else {
                                            Seq::empty()
                                        }
                                    }
                                }
                            } else {
                                if value < 367 {
                                    if value < 366 {
                                        if value == 365 {
                                            "KEY_EPG"@
                                        } else {
                                            Seq::empty()
                                        }
                                    } else {
                                        if value == 366 {
                                            "KEY_PVR"@
                                        } else {
                                            Seq::empty()
                                        }
                                    }
                                } else {
                                    if value < 368 {
                                        if value == 367 {
                                            "KEY_MHP"@
                                        } else {
                                            Seq::empty()
                                        }
                                    } else {
                                        if value == 368 {
                                            "KEY_LANGUAGE"@
                                        } else {
                                            Seq::empty()
                                        }
                                    }
                                }
                            }
                        } else {
                            if value < 373 {
                                if value < 371 {
                                    if value < 370 {
                                        if value == 369 {
                                            "KEY_TITLE"@
                                        } else {
                                            Seq::empty()
                                        }
                                    } else {
                                        if value == 370 {
                                            "KEY_SUBTITLE"@
                                        } else {
                                            Seq::empty()
                                        }
                                    }
                                } else {
                                    if value < 372 {
                                        if value == 371 {
                                            "KEY_ANGLE"@
                                        } else {
                                            Seq::empty()
                                        }
                                    } else {
                                        if value == 372 {
                                            "KEY_FULL_SCREEN"@
                                        } else {
                                            Seq::empty()
                                        }
                                    }
                                }
                            } else {
                                if value < 375 {
                                    if value < 374 {
                                        if value == 373 {
                                            "KEY_MODE"@
                                        } else {
                                            Seq::empty()
                                        }
                                    } else {
                                        if value == 374 {
                                            "KEY_KEYBOARD"@
                                        } else {
                                            Seq::empty()
                                        }
                                    }
                                } else {
                                    if value < 376 {
                                        if value == 375 {
                                            "KEY_ASPECT_RATIO"@
                                        } else {
                                            Seq::empty()
                                        }
                                    } else {
                                        if value == 376 {
                                            "KEY_PC"@
                                        } else {
                                            Seq::empty()
                                        }
                                    }
                                }
                            }
                        }
                    } else {
                        if value < 385 {
                            if value < 381 {
                                if value < 379 {
                                    if value < 378 {
                                        if value == 377 {
                                            "KEY_TV"@
                                        } else {
                                            Seq::empty()
                                        }
                                    } else {
                                        if value == 378 {
                                            "KEY_TV2"@
                                        } else {
                                            Seq::empty()
                                        }
                                    }
                                } else {
                                    if value < 380 {
                                        if value == 379 {
                                            "KEY_VCR"@
                                        } else {
                                            Seq::empty()
                                        }
                                    } else {
                                        if value == 380 {
                                            "KEY_VCR2"@
                                        } else {
                                            Seq::empty()
                                        }
                                    }
                                }
                            } else {
                                if value < 383 {
                                    if value < 382 {
                                        if value == 381 {
                                            "KEY_SAT"@
                                        } else {
                                            Seq::empty()
                                        }
                                    } else {
                                        if value == 382 {
                                            "KEY_SAT2"@
                                        } else {
                                            Seq::empty()
                                        }
                                    }
                                } else {
                                    if value < 384 {
                                        if value == 383 {
                                            "KEY_CD"@
                                        } else {
                                            Seq::empty()
                                        }
                                    } else {
                                        if value == 384 {
                                            "KEY_TAPE"@
                                        } else {
                                            Seq::empty()
                                        }
                                    }
                                }
                            }
                        } else {
                            if value < 389 {
                                if value < 387 {
                                    if value < 386 {
                                        if value == 385 {
                                            "KEY_RADIO"@
                                        } else {
                                            Seq::empty()
                                        }
                                    } else {
                                        if value == 386 {
                                            "KEY_TUNER"@
                                        } else {
                                            Seq::empty()
                                        }
                                    }
                                } else {
                                    if value < 388 {
                                        if value == 387 {
                                            "KEY_PLAYER"@
                                        } else {
                                            Seq::empty()
                                        }
                                    } else {
                                        if value == 388 {
                                            "KEY_TEXT"@
                                        } else {
                                            Seq::empty()
                                        }
                                    }
                                }
                            } else {
                                if value < 391 {
                                    if value < 390 {
                                        if value == 389 {
                                            "KEY_DVD"@
                                        } else {
                                            Seq::empty()
                                        }
                                    } else {
                                        if value == 390 {
                                            "KEY_AUX"@
                                        } else {
                                            Seq::empty()
                                        }
                                    }
                                } else {
                                    if value < 392 {
                                        if value == 391 {
                                            "KEY_MP3"@
                                        } else {
                                            Seq::empty()
                                        }
                                    } else {
                                        if value == 392 {
                                            "KEY_AUDIO"@
                                        } else {
                                            Seq::empty()
                                        }
                                    }
                                }
                            }
                        }
                    }
                } else {
                    if value < 409 {
                        if value < 401 {
                            if value < 397 {
                                if value < 395 {
                                    if value < 394 {
                                        if value == 393 {
                                            "KEY_VIDEO"@
                                        } else {
                                            Seq::empty()
                                        }
                                    } else {
                                        if value == 394 {
                                            "KEY_DIRECTORY"@
                                        } else {
                                            Seq::empty()
                                        }
                                    }
                                } else {
                                    if value < 396 {
                                        if value == 395 {
                                            "KEY_LIST"@
                                        } else {
                                            Seq::empty()
                                        }
                                    } else {
                                        if value == 396 {
                                            "KEY_MEMO"@
                                        } else {
                                            Seq::empty()
                                        }
                                    }
                                }
                            } else {
                                if value < 399 {
                                    if value < 398 {
                                        if value == 397 {
                                            "KEY_CALENDAR"@
                                        } else {
                                            Seq::empty()
                                        }
                                    } else {
                                        if value == 398 {
                                            "KEY_RED"@
                                        } else {
                                            Seq::empty()
                                        }
                                    }
                                } else {
                                    if value < 400 {
                                        if value == 399 {
                                            "KEY_GREEN"@
                                        } else {
                                            Seq::empty()
                                        }
                                    } else {
                                        if value == 400 {
                                            "KEY_YELLOW"@
                                        } else {
                                            Seq::empty()
                                        }
                                    }
                                }
                            }
                        } else {
                            if value < 405 {
                                if value < 403 {
                                    if value < 402 {
                                        if value == 401 {
                                            "KEY_BLUE"@
                                        } else {
                                            Seq::empty()
                                        }
                                    } else {
                                        if value == 402 {
                                            "KEY_CHANNELUP"@
                                        } else {
                                            Seq::empty()
                                        }
                                    }
                                } else {
                                    if value < 404 {
                                        if value == 403 {
                                            "KEY_CHANNELDOWN"@
                                        } else {
                                            Seq::empty()
                                        }
                                    } else {
                                        if value == 404 {
                                            "KEY_FIRST"@
                                        } else {
                                            Seq::empty()
                                        }
                                    }
                                }
                            } else {
                                if value < 407 {
                                    if value < 406 {
                                        if value == 405 {
                                            "KEY_LAST"@
                                        } else {
                                            Seq::empty()
                                        }
                                    } else {
                                        if value == 406 {
                                            "KEY_AB"@
                                        } else {
                                            Seq::empty()
                                        }
                                    }
                                } else {
                                    if value < 408 {
                                        if value == 407 {
                                            "KEY_NEXT"@
                                        } else {
                                            Seq::empty()
                                        }
                                    } else {
                                        if value == 408 {
                                            "KEY_RESTART"@
                                        } else {
                                            Seq::empty()
                                        }
                                    }
                                }
                            }
                        }
                    } else {
                        if value < 417 {
                            if value < 413 {
                                if value < 411 {
                                    if value < 410 {
                                        if value == 409 {
                                            "KEY_SLOW"@
                                        } else {
                                            Seq::empty()
                                        }
                                    } else {
                                        if value == 410 {
                                            "KEY_SHUFFLE"@
                                        } else {
                                            Seq::empty()
                                        }
                                    }
                                } else {
                                    if value < 412 {
                                        if value == 411 {
                                            "KEY_BREAK"@
                                        } else {
                                            Seq::empty()
                                        }
                                    } else {
                                        if value == 412 {
                                            "KEY_PREVIOUS"@
                                        } else {
                                            Seq::empty()
                                        }
                                    }
                                }
                            } else {
                                if value < 415 {
                                    if value < 414 {
                                        if value == 413 {
                                            "KEY_DIGITS"@
                                        } else {
                                            Seq::empty()
                                        }
                                    } else {
                                        if value == 414 {
                                            "KEY_TEEN"@
                                        } else {
                                            Seq::empty()
                                        }
                                    }
                                } else {
                                    if value < 416 {
                                        if value == 415 {
                                            "KEY_TWEN"@
                                        } else {
                                            Seq::empty()
                                        }
                                    } else {
                                        if value == 416 {
                                            "KEY_VIDEOPHONE"@
                                        } else {
                                            Seq::empty()
                                        }
                                    }
                                }
                            }
                        } else {
                            if value < 421 {
                                if value < 419 {
                                    if value < 418 {
                                        if value == 417 {
                                            "KEY_GAMES"@
                                        } else {
                                            Seq::empty()
                                        }
                                    } else {
                                        if value == 418 {
                                            "KEY_ZOOMIN"@
                                        } else {
                                            Seq::empty()
                                        }
                                    }
                                } else {
                                    if value < 420 {
                                        if value == 419 {
                                            "KEY_ZOOMOUT"@
                                        } else {
                                            Seq::empty()
                                        }
                                    } else {
                                        if value == 420 {
                                            "KEY_ZOOMRESET"@
                                        } else {
                                            Seq::empty()
                                        }
                                    }
                                }
                            } else {
                                if value < 423 {
                                    if value < 422 {
                                        if value == 421 {
                                            "KEY_WORDPROCESSOR"@
                                        } else {
                                            Seq::empty()
                                        }
                                    } else {
                                        if value == 422 {
                                            "KEY_EDITOR"@
                                        } else {
                                            Seq::empty()
                                        }
                                    }
                                } else {
                                    if value < 424 {
                                        if value == 423 {
                                            "KEY_SPREADSHEET"@
                                        } else {
                                            Seq::empty()
                                        }
                                    } else {
                                        if value == 424 {
                                            "KEY_GRAPHICSEDITOR"@
                                        } else {
                                            Seq::empty()
                                        }
                                    }
                                }
                            }
                        }
                    }
                }
            } else {
                if value < 469 {
                    if value < 440 {
                        if value < 432 {
                            if value < 428 {
                                if value < 426 {
                                    if value == 425 {
                                        "KEY_PRESENTATION"@
                                    } else {
                                        Seq::empty()
                                    }
                                } else {
                                    if value < 427 {
                                        if value == 426 {
                                            "KEY_DATABASE"@
                                        } else {
                                            Seq::empty()
                                        }
                                    } else {
                                        if value == 427 {
                                            "KEY_NEWS"@
                                        } else {
                                            Seq::empty()
                                        }
                                    }
                                }
                            } else {
                                if value < 430 {
                                    if value < 429 {
                                        if value == 428 {
                                            "KEY_VOICEMAIL"@
                                        } else {
                                            Seq::empty()
                                        }
                                    } else {
                                        if value == 429 {
                                            "KEY_ADDRESSBOOK"@
                                        } else {
                                            Seq::empty()
                                        }
                                    }
                                } else {
                                    if value < 431 {
                                        if value == 430 {
                                            "KEY_MESSENGER"@
                                        } else {
                                            Seq::empty()
                                        }
                                    } else {
                                        if value == 431 {
                                            "KEY_DISPLAYTOGGLE"@
                                        } else {
                                            Seq::empty()
                                        }
                                    }
                                }
                            }
                        } else {
                            if value < 436 {
                                if value < 434 {
                                    if value < 433 {
                                        if value == 432 {
                                            "KEY_SPELLCHECK"@
                                        } else {
                                            Seq::empty()
                                        }
                                    } else {
                                        if value == 433 {
                                            "KEY_LOGOFF"@
                                        } else {
                                            Seq::empty()
                                        }
                                    }
                                } else {
                                    if value < 435 {
                                        if value == 434 {
                                            "KEY_DOLLAR"@
                                        } else {
                                            Seq::empty()
                                        }
                                    } else {
                                        if value == 435 {
                                            "KEY_EURO"@
                                        } else {
                                            Seq::empty()
                                        }
                                    }
                                }
                            } else {
                                if value < 438 {
                                    if value < 437 {
                                        if value == 436 {
                                            "KEY_FRAMEBACK"@
                                        } else {
                                            Seq::empty()
                                        }
                                    } else {
                                        if value == 437 {
                                            "KEY_FRAMEFORWARD"@
                                        } else {
                                            Seq::empty()
                                        }
                                    }
                                } else {
                                    if value < 439 {
                                        if value == 438 {
                                            "KEY_CONTEXT_MENU"@
                                        } else {
                                            Seq::empty()
                                        }
                                    } else {
                                        if value == 439 {
                                            "KEY_MEDIA_REPEAT"@
                                        } else {
                                            Seq::empty()
                                        }
                                    }
                                }
                            }
                        }
                    } else {
                        if value < 449 {
                            if value < 445 {
                                if value < 442 {
                                    if value < 441 {
                                        if value == 440 {
                                            "KEY_10CHANNELSUP"@
                                        } else {
                                            Seq::empty()
                                        }
                                    } else {
                                        if value == 441 {
                                            "KEY_10CHANNELSDOWN"@
                                        } else {
                                            Seq::empty()
                                        }
                                    }
                                } else {
                                    if value < 444 {
                                        if value == 442 {
                                            "KEY_IMAGES"@
                                        } else {
                                            Seq::empty()
                                        }
                                    } else {
                                        if value == 444 {
                                            "KEY_NOTIFICATION_CENTER"@
                                        } else {
                                            Seq::empty()
                                        }
                                    }
                                }
                            } else {
                                if value < 447 {
                                    if value < 446 {
                                        if value == 445 {
                                            "KEY_PICKUP_PHONE"@
                                        } else {
                                            Seq::empty()
                                        }
                                    } else {
                                        if value == 446 {
                                            "KEY_HANGUP_PHONE"@
                                        } else {
                                            Seq::empty()
                                        }
                                    }
                                } else {
                                    if value < 448 {
                                        if value == 447 {
                                            "KEY_LINK_PHONE"@
                                        } else {
                                            Seq::empty()
                                        }
                                    } else {
                                        if value == 448 {
                                            "KEY_DEL_EOL"@
                                        } else {
                                            Seq::empty()
                                        }
                                    }
                                }
                            }
                        } else {
                            if value < 465 {
                                if value < 451 {
                                    if value < 450 {
                                        if value == 449 {
                                            "KEY_DEL_EOS"@
                                        } else {
                                            Seq::empty()
                                        }
                                    } else {
                                        if value == 450 {
                                            "KEY_INS_LINE"@
                                        } else {
                                            Seq::empty()
                                        }
                                    }
                                } else {
                                    if value < 464 {
                                        if value == 451 {
                                            "KEY_DEL_LINE"@
                                        } else {
                                            Seq::empty()
                                        }
                                    } else {
                                        if value == 464 {
                                            "KEY_FN"@
                                        } else {
                                            Seq::empty()
                                        }
                                    }
                                }
                            } else {
                                if value < 467 {
                                    if value < 466 {
                                        if value == 465 {
                                            "KEY_FN_ESC"@
                                        } else {
                                            Seq::empty()
                                        }
                                    } else {
                                        if value == 466 {
                                            "KEY_FN_F1"@
                                        } else {
                                            Seq::empty()
                                        }
                                    }
                                } else {
                                    if value < 468 {
                                        if value == 467 {
                                            "KEY_FN_F2"@
                                        } else {
                                            Seq::empty()
                                        }
                                    } else {
                                        if value == 468 {
                                            "KEY_FN_F3"@
                                        } else {
                                            Seq::empty()
                                        }
                                    }
                                }
                            }
                        }
                    }
                } else {
                    if value < 485 {
                        if value < 477 {
                            if value < 473 {
                                if value < 471 {
                                    if value < 470 {
                                        if value == 469 {
                                            "KEY_FN_F4"@
                                        } else {
                                            Seq::empty()
                                        }
                                    } else {
                                        if value == 470 {
                                            "KEY_FN_F5"@
                                        } else {
                                            Seq::empty()
                                        }
                                    }
                                } else {
                                    if value < 472 {
                                        if value == 471 {
                                            "KEY_FN_F6"@
                                        } else {
                                            Seq::empty()
                                        }
                                    } else {
                                        if value == 472 {
                                            "KEY_FN_F7"@
                                        } else {
                                            Seq::empty()
                                        }
                                    }
                                }
                            } else {
                                if value < 475 {
                                    if value < 474 {
                                        if value == 473 {
                                            "KEY_FN_F8"@
                                        } else {
                                            Seq::empty()
                                        }
                                    } else {
                                        if value == 474 {
                                            "KEY_FN_F9"@
                                        } else {
                                            Seq::empty()
                                        }
                                    }
                                } else {
                                    if value < 476 {
                                        if value == 475 {
                                            "KEY_FN_F10"@
                                        } else {
                                            Seq::empty()
                                        }
                                    } else {
                                        if value == 476 {
                                            "KEY_FN_F11"@
                                        } else {
                                            Seq::empty()
                                        }
                                    }
                                }
                            }
                        } else {
                            if value < 481 {
                                if value < 479 {
                                    if value < 478 {
                                        if value == 477 {
                                            "KEY_FN_F12"@
                                        } else {
                                            Seq::empty()
                                        }
                                    } else {
                                        if value == 478 {
                                            "KEY_FN_1"@
                                        } else {
                                            Seq::empty()
                                        }
                                    }
                                } else {
                                    if value < 480 {
                                        if value == 479 {
                                            "KEY_FN_2"@
                                        } else {
                                            Seq::empty()
                                        }
                                    } else {
                                        if value == 480 {
                                            "KEY_FN_D"@
                                        } else {
                                            Seq::empty()
                                        }
                                    }
                                }
                            } else {
                                if value < 483 {
                                    if value < 482 {
                                        if value == 481 {
                                            "KEY_FN_E"@
                                        } else {
                                            Seq::empty()
                                        }
                                    } else {
                                        if value == 482 {
                                            "KEY_FN_F"@
                                        } else {
                                            Seq::empty()
                                        }
                                    }
                                } else {
                                    if value < 484 {
                                        if value == 483 {
                                            "KEY_FN_S"@
                                        } else {
                                            Seq::empty()
                                        }
                                    } else {
                                        if value == 484 {
                                            "KEY_FN_B"@
                                        } else {
                                            Seq::empty()
                                        }
                                    }
                                }
                            }
                        }
                    } else {
                        if value < 504 {
                            if value < 500 {
                                if value < 498 {
                                    if value < 497 {
                                        if value == 485 {
                                            "KEY_FN_RIGHT_SHIFT"@
                                        } else {
                                            Seq::empty()
                                        }
                                    } else {
                                        if value == 497 {
                                            "KEY_BRL_DOT1"@
                                        } else {
                                            Seq::empty()
                                        }
                                    }
                                } else {
                                    if value < 499 {
                                        if value == 498 {
                                            "KEY_BRL_DOT2"@
                                        } else {
                                            Seq::empty()
                                        }
                                    } else {
                                        if value == 499 {
                                            "KEY_BRL_DOT3"@
                                        } else {
                                            Seq::empty()
                                        }
                                    }
                                }
                            } else {
                                if value < 502 {
                                    if value < 501 {
                                        if value == 500 {
                                            "KEY_BRL_DOT4"@
                                        } else {
                                            Seq::empty()
                                        }
                                    } else {
                                        if value == 501 {
                                            "KEY_BRL_DOT5"@
                                        } else {
                                            Seq::empty()
                                        }
                                    }
                                } else {
                                    if value < 503 {
                                        if value == 502 {
                                            "KEY_BRL_DOT6"@
                                        } else {
                                            Seq::empty()
                                        }
                                    } else {
                                        if value == 503 {
                                            "KEY_BRL_DOT7"@
                                        } else {
                                            Seq::empty()
                                        }
                                    }
                                }
                            }
                        } else {
                            if value < 513 {
                                if value < 506 {
                                    if value < 505 {
                                        if value == 504 {
                                            "KEY_BRL_DOT8"@
                                        } else {
                                            Seq::empty()
                                        }
                                    } else {
                                        if value == 505 {
                                            "KEY_BRL_DOT9"@
                                        } else {
                                            Seq::empty()
                                        }
                                    }
                                } else {
                                    if value < 512 {
                                        if value == 506 {
                                            "KEY_BRL_DOT10"@
                                        } else {
                                            Seq::empty()
                                        }
                                    } else {
                                        if value == 512 {
                                            "KEY_NUMERIC_0"@
                                        } else {
                                            Seq::empty()
                                        }
                                    }
                                }
                            } else {
                                if value < 515 {
                                    if value < 514 {
                                        if value == 513 {
                                            "KEY_NUMERIC_1"@
                                        } else {
                                            Seq::empty()
                                        }
                                    } else {
                                        if value == 514 {
                                            "KEY_NUMERIC_2"@
                                        } else {
                                            Seq::empty()
                                        }
                                    }
                                } else {
                                    if value < 516 {
                                        if value == 515 {
                                            "KEY_NUMERIC_3"@
                                        } else {
                                            Seq::empty()
                                        }
                                    } else {
                                        if value == 516 {
                                            "KEY_NUMERIC_4"@
                                        } else {
                                            Seq::empty()
                                        }
                                    }
                                }
                            }
                        }
                    }
                }
            }
        } else {
            if value < 629 {
                if value < 578 {
                    if value < 532 {
                        if value < 524 {
                            if value < 520 {
                                if value < 518 {
                                    if value == 517 {
                                        "KEY_NUMERIC_5"@
                                    } else {
                                        Seq::empty()
                                    }
                                } else {
                                    if value < 519 {
                                        if value == 518 {
                                            "KEY_NUMERIC_6"@
                                        } else {
                                            Seq::empty()
                                        }
                                    } else {
                                        if value == 519 {
                                            "KEY_NUMERIC_7"@
                                        } else {
                                            Seq::empty()
                                        }
                                    }
                                }
                            } else {
                                if value < 522 {
                                    if value < 521 {
                                        if value == 520 {
                                            "KEY_NUMERIC_8"@
                                        } else {
                                            Seq::empty()
                                        }
                                    } else {
                                        if value == 521 {
                                            "KEY_NUMERIC_9"@
                                        } else {
                                            Seq::empty()
                                        }
                                    }
                                } else {
                                    if value < 523 {
                                        if value == 522 {
                                            "KEY_NUMERIC_STAR"@
                                        } else {
                                            Seq::empty()
                                        }
                                    } else {
                                        if value == 523 {
                                            "KEY_NUMERIC_POUND"@
                                        } else {
                                            Seq::empty()
                                        }
                                    }
                                }
                            }
                        } else {
                            if value < 528 {
                                if value < 526 {
                                    if value < 525 {
                                        if value == 524 {
                                            "KEY_NUMERIC_A"@
                                        } else {
                                            Seq::empty()
                                        }
                                    } else {
                                        if value == 525 {
                                            "KEY_NUMERIC_B"@
                                        } else {
                                            Seq::empty()
                                        }
                                    }
                                } else {
                                    if value < 527 {
                                        if value == 526 {
                                            "KEY_NUMERIC_C"@
                                        } else {
                                            Seq::empty()
                                        }
                                    } else {
                                        if value == 527 {
                                            "KEY_NUMERIC_D"@
                                        } else {
                                            Seq::empty()
                                        }
                                    }
                                }
                            } else {
                                if value < 530 {
                                    if value < 529 {
                                        if value == 528 {
                                            "KEY_CAMERA_FOCUS"@
                                        } else {
                                            Seq::empty()
                                        }
                                    } else {
                                        if value == 529 {
                                            "KEY_WPS_BUTTON"@
                                        } else {
                                            Seq::empty()
                                        }
                                    }
                                } else {
                                    if value < 531 {
                                        if value == 530 {
                                            "KEY_TOUCHPAD_TOGGLE"@
                                        } else {
                                            Seq::empty()
                                        }
                                    } else {
                                        if value == 531 {
                                            "KEY_TOUCHPAD_ON"@
                                        } else {
                                            Seq::empty()
                                        }
                                    }
                                }
                            }
                        }
                    } else {
                        if value < 540 {
                            if value < 536 {
                                if value < 534 {
                                    if value < 533 {
                                        if value == 532 {
                                            "KEY_TOUCHPAD_OFF"@
                                        } else {
                                            Seq::empty()
                                        }
                                    } else {
                                        if value == 533 {
                                            "KEY_CAMERA_ZOOMIN"@
                                        } else {
                                            Seq::empty()
                                        }
                                    }
                                } else {
                                    if value < 535 {
                                        if value == 534 {
                                            "KEY_CAMERA_ZOOMOUT"@
                                        } else {
                                            Seq::empty()
                                        }
                                    } else {
                                        if value == 535 {
                                            "KEY_CAMERA_UP"@
                                        } else {
                                            Seq::empty()
                                        }
                                    }
                                }
                            } else {
                                if value < 538 {
                                    if value < 537 {
                                        if value == 536 {
                                            "KEY_CAMERA_DOWN"@
                                        } else {
                                            Seq::empty()
                                        }
                                    } else {
                                        if value == 537 {
                                            "KEY_CAMERA_LEFT"@
                                        } else {
                                            Seq::empty()
                                        }
                                    }
                                } else {
                                    if value < 539 {
                                        if value == 538 {
                                            "KEY_CAMERA_RIGHT"@
                                        } else {
                                            Seq::empty()
                                        }
                                    } else {
                                        if value == 539 {
                                            "KEY_ATTENDANT_ON"@
                                        } else {
                                            Seq::empty()
                                        }
                                    }
                                }
                            }
                        } else {
                            if value < 561 {
                                if value < 542 {
                                    if value < 541 {
                                        if value == 540 {
                                            "KEY_ATTENDANT_OFF"@
                                        } else {
                                            Seq::empty()
                                        }
                                    } else {
                                        if value == 541 {
                                            "KEY_ATTENDANT_TOGGLE"@
                                        } else {
                                            Seq::empty()
                                        }
                                    }
                                } else {
                                    if value < 560 {
                                        if value == 542 {
                                            "KEY_LIGHTS_TOGGLE"@
                                        } else {
                                            Seq::empty()
                                        }
                                    } else {
                                        if value == 560 {
                                            "KEY_ALS_TOGGLE"@
                                        } else {
                                            Seq::empty()
                                        }
                                    }
                                }
                            } else {
                                if value < 576 {
                                    if value < 562 {
                                        if value == 561 {
                                            "KEY_ROTATE_LOCK_TOGGLE"@
                                        } else {
                                            Seq::empty()
                                        }
                                    } else {
                                        if value == 562 {
                                            "KEY_REFRESH_RATE_TOGGLE"@
                                        } else {
                                            Seq::empty()
                                        }
                                    }
                                } else {
                                    if value < 577 {
                                        if value == 576 {
                                            "KEY_BUTTONCONFIG"@
                                        } else {
                                            Seq::empty()
                                        }
                                    } else {
                                        if value == 577 {
                                            "KEY_TASKMANAGER"@
                                        } else {
                                            Seq::empty()
                                        }
                                    }
                                }
                            }
                        }
                    }
                } else {
                    if value < 613 {
                        if value < 586 {
                            if value < 582 {
                                if value < 580 {
                                    if value < 579 {
                                        if value == 578 {
                                            "KEY_JOURNAL"@
                                        } else {
                                            Seq::empty()
                                        }
                                    } else {
                                        if value == 579 {
                                            "KEY_CONTROLPANEL"@
                                        } else {
                                            Seq::empty()
                                        }
                                    }
                                } else {
                                    if value < 581 {
                                        if value == 580 {
                                            "KEY_APPSELECT"@
                                        } else {
                                            Seq::empty()
                                        }
                                    } else {
                                        if value == 581 {
                                            "KEY_SCREENSAVER"@
                                        } else {
                                            Seq::empty()
                                        }
                                    }
                                }
                            } else {
                                if value < 584 {
                                    if value < 583 {
                                        if value == 582 {
                                            "KEY_VOICECOMMAND"@
                                        } else {
                                            Seq::empty()
                                        }
                                    } else {
                                        if value == 583 {
                                            "KEY_ASSISTANT"@
                                        } else {
                                            Seq::empty()
                                        }
                                    }
                                } else {
                                    if value < 585 {
                                        if value == 584 {
                                            "KEY_KBD_LAYOUT_NEXT"@
                                        } else {
                                            Seq::empty()
                                        }
                                    } else {
                                        if value == 585 {
                                            "KEY_EMOJI_PICKER"@
                                        } else {
                                            Seq::empty()
                                        }
                                    }
                                }
                            }
                        } else {
                            if value < 609 {
                                if value < 593 {
                                    if value < 592 {
                                        if value == 586 {
                                            "KEY_DICTATE"@
                                        } else {
                                            Seq::empty()
                                        }
                                    } else {
                                        if value == 592 {
                                            "KEY_BRIGHTNESS_MIN"@
                                        } else {
                                            Seq::empty()
                                        }
                                    }
                                } else {
                                    if value < 608 {
                                        if value == 593 {
                                            "KEY_BRIGHTNESS_MAX"@
                                        } else {
                                            Seq::empty()
                                        }
                                    } else {
                                        if value == 608 {
                                            "KEY_KBDINPUTASSIST_PREV"@
                                        } else {
                                            Seq::empty()
                                        }
                                    }
                                }
                            } else {
                                if value < 611 {
                                    if value < 610 {
                                        if value == 609 {
                                            "KEY_KBDINPUTASSIST_NEXT"@
                                        } else {
                                            Seq::empty()
                                        }
                                    } else {
                                        if value == 610 {
                                            "KEY_KBDINPUTASSIST_PREVGROUP"@
                                        } else {
                                            Seq::empty()
                                        }
                                    }
                                } else {
                                    if value < 612 {
                                        if value == 611 {
                                            "KEY_KBDINPUTASSIST_NEXTGROUP"@
                                        } else {
                                            Seq::empty()
                                        }
                                    } else {
                                        if value == 612 {
                                            "KEY_KBDINPUTASSIST_ACCEPT"@
                                        } else {
                                            Seq::empty()
                                        }
                                    }
                                }
                            }
                        }
                    } else {
                        if value < 621 {
                            if value < 617 {
                                if value < 615 {
                                    if value < 614 {
                                        if value == 613 {
                                            "KEY_KBDINPUTASSIST_CANCEL"@
                                        } else {
                                            Seq::empty()
                                        }
                                    } else {
                                        if value == 614 {
                                            "KEY_RIGHT_UP"@
                                        } else {
                                            Seq::empty()
                                        }
                                    }
                                } else {
                                    if value < 616 {
                                        if value == 615 {
                                            "KEY_RIGHT_DOWN"@
                                        } else {
                                            Seq::empty()
                                        }
                                    } else {
                                        if value == 616 {
                                            "KEY_LEFT_UP"@
                                        } else {
                                            Seq::empty()
                                        }
                                    }
                                }
                            } else {
                                if value < 619 {
                                    if value < 618 {
                                        if value == 617 {
                                            "KEY_LEFT_DOWN"@
                                        } else {
                                            Seq::empty()
                                        }
                                    } else {
                                        if value == 618 {
                                            "KEY_ROOT_MENU"@
                                        } else {
                                            Seq::empty()
                                        }
                                    }
                                } else {
                                    if value < 620 {
                                        if value == 619 {
                                            "KEY_MEDIA_TOP_MENU"@
                                        } else {
                                            Seq::empty()
                                        }
                                    } else {
                                        if value == 620 {
                                            "KEY_NUMERIC_11"@
                                        } else {
                                            Seq::empty()
                                        }
                                    }
                                }
                            }
                        } else {
                            if value < 625 {
                                if value < 623 {
                                    if value < 622 {
                                        if value == 621 {
                                            "KEY_NUMERIC_12"@
                                        } else {
                                            Seq::empty()
                                        }
                                    } else {
                                        if value == 622 {
                                            "KEY_AUDIO_DESC"@
                                        } else {
                                            Seq::empty()
                                        }
                                    }
                                } else {
                                    if value < 624 {
                                        if value == 623 {
                                            "KEY_3D_MODE"@
                                        } else {
                                            Seq::empty()
                                        }
                                    } else {
                                        if value == 624 {
                                            "KEY_NEXT_FAVORITE"@
                                        } else {
                                            Seq::empty()
                                        }
                                    }
                                }
                            } else {
                                if value < 627 {
                                    if value < 626 {
                                        if value == 625 {
                                            "KEY_STOP_RECORD"@
                                        } else {
                                            Seq::empty()
                                        }
                                    } else {
                                        if value == 626 {
                                            "KEY_PAUSE_RECORD"@
                                        } else {
                                            Seq::empty()
                                        }
                                    }
                                } else {
                                    if value < 628 {
                                        if value == 627 {
                                            "KEY_VOD"@
                                        } else {
                                            Seq::empty()
                                        }
                                    } else {
                                        if value == 628 {
                                            "KEY_UNMUTE"@
                                        } else {
                                            Seq::empty()
                                        }
                                    }
                                }
                            }
                        }
                    }
                }
            } else {
                if value < 667 {
                    if value < 645 {
                        if value < 637 {
                            if value < 633 {
                                if value < 631 {
                                    if value < 630 {
                                        if value == 629 {
                                            "KEY_FASTREVERSE"@
                                        } else {
                                            Seq::empty()
                                        }
                                    } else {
                                        if value == 630 {
                                            "KEY_SLOWREVERSE"@
                                        } else {
                                            Seq::empty()
                                        }
                                    }
                                } else {
                                    if value < 632 {
                                        if value == 631 {
                                            "KEY_DATA"@
                                        } else {
                                            Seq::empty()
                                        }
                                    } else {
                                        if value == 632 {
                                            "KEY_ONSCREEN_KEYBOARD"@
                                        } else {
                                            Seq::empty()
                                        }
                                    }
                                }
                            } else {
                                if value < 635 {
                                    if value < 634 {
                                        if value == 633 {
                                            "KEY_PRIVACY_SCREEN_TOGGLE"@
                                        } else {
                                            Seq::empty()
                                        }
                                    } else {
                                        if value == 634 {
                                            "KEY_SELECTIVE_SCREENSHOT"@
                                        } else {
                                            Seq::empty()
                                        }
                                    }
                                } else {
                                    if value < 636 {
                                        if value == 635 {
                                            "KEY_NEXT_ELEMENT"@
                                        } else {
                                            Seq::empty()
                                        }
                                    } else {
                                        if value == 636 {
                                            "KEY_PREVIOUS_ELEMENT"@
                                        } else {
                                            Seq::empty()
                                        }
                                    }
                                }
                            }
                        } else {
                            if value < 641 {
                                if value < 639 {
                                    if value < 638 {
                                        if value == 637 {
                                            "KEY_AUTOPILOT_ENGAGE_TOGGLE"@
                                        } else {
                                            Seq::empty()
                                        }
                                    } else {
                                        if value == 638 {
                                            "KEY_MARK_WAYPOINT"@
                                        } else {
                                            Seq::empty()
                                        }
                                    }
                                } else {
                                    if value < 640 {
                                        if value == 639 {
                                            "KEY_SOS"@
                                        } else {
                                            Seq::empty()
                                        }
                                    } else {
                                        if value == 640 {
                                            "KEY_NAV_CHART"@
                                        } else {
                                            Seq::empty()
                                        }
                                    }
                                }
                            } else {
                                if value < 643 {
                                    if value < 642 {
                                        if value == 641 {
                                            "KEY_FISHING_CHART"@
                                        } else {
                                            Seq::empty()
                                        }
                                    } else {
                                        if value == 642 {
                                            "KEY_SINGLE_RANGE_RADAR"@
                                        } else {
                                            Seq::empty()
                                        }
                                    }
                                } else {
                                    if value < 644 {
                                        if value == 643 {
                                            "KEY_DUAL_RANGE_RADAR"@
                                        } else {
                                            Seq::empty()
                                        }
                                    } else {
                                        if value == 644 {
                                            "KEY_RADAR_OVERLAY"@
                                        } else {
                                            Seq::empty()
                                        }
                                    }
                                }
                            }
                        }
                    } else {
                        if value < 659 {
                            if value < 649 {
                                if value < 647 {
                                    if value < 646 {
                                        if value == 645 {
                                            "KEY_TRADITIONAL_SONAR"@
                                        } else {
                                            Seq::empty()
                                        }
                                    } else {
                                        if value == 646 {
                                            "KEY_CLEARVU_SONAR"@
                                        } else {
                                            Seq::empty()
                                        }
                                    }
                                } else {
                                    if value < 648 {
                                        if value == 647 {
                                            "KEY_SIDEVU_SONAR"@
                                        } else {
                                            Seq::empty()
                                        }
                                    } else {
                                        if value == 648 {
                                            "KEY_NAV_INFO"@
                                        } else {
                                            Seq::empty()
                                        }
                                    }
                                }
                            } else {
                                if value < 657 {
                                    if value < 656 {
                                        if value == 649 {
                                            "KEY_BRIGHTNESS_MENU"@
                                        } else {
                                            Seq::empty()
                                        }
                                    } else {
                                        if value == 656 {
                                            "KEY_MACRO1"@
                                        } else {
                                            Seq::empty()
                                        }
                                    }
                                } else {
                                    if value < 658 {
                                        if value == 657 {
                                            "KEY_MACRO2"@
                                        } else {
                                            Seq::empty()
                                        }
                                    } else {
                                        if value == 658 {
                                            "KEY_MACRO3"@
                                        } else {
                                            Seq::empty()
                                        }
                                    }
                                }
                            }
                        } else {
                            if value < 663 {
                                if value < 661 {
                                    if value < 660 {
                                        if value == 659 {
                                            "KEY_MACRO4"@
                                        } else {
                                            Seq::empty()
                                        }
                                    } else {
                                        if value == 660 {
                                            "KEY_MACRO5"@
                                        } else {
                                            Seq::empty()
                                        }
                                    }
                                } else {
                                    if value < 662 {
                                        if value == 661 {
                                            "KEY_MACRO6"@
                                        } else {
                                            Seq::empty()
                                        }
                                    } else {
                                        if value == 662 {
                                            "KEY_MACRO7"@
                                        } else {
                                            Seq::empty()
                                        }
                                    }
                                }
                            } else {
                                if value < 665 {
                                    if value < 664 {
                                        if value == 663 {
                                            "KEY_MACRO8"@
                                        } else {
                                            Seq::empty()
                                        }
                                    } else {
                                        if value == 664 {
                                            "KEY_MACRO9"@
                                        } else {
                                            Seq::empty()
                                        }
                                    }
                                } else {
                                    if value < 666 {
                                        if value == 665 {
                                            "KEY_MACRO10"@
                                        } else {
                                            Seq::empty()
                                        }
                                    } else {
                                        if value == 666 {
                                            "KEY_MACRO11"@
                                        } else {
                                            Seq::empty()
                                        }
                                    }
                                }
                            }
                        }
                    }
                } else {
                    if value < 683 {
                        if value < 675 {
                            if value < 671 {
                                if value < 669 {
                                    if value < 668 {
                                        if value == 667 {
                                            "KEY_MACRO12"@
                                        } else {
                                            Seq::empty()
                                        }
                                    } else {
                                        if value == 668 {
                                            "KEY_MACRO13"@
                                        } else {
                                            Seq::empty()
                                        }
                                    }
                                } else {
                                    if value < 670 {
                                        if value == 669 {
                                            "KEY_MACRO14"@
                                        } else {
                                            Seq::empty()
                                        }
                                    } else {
                                        if value == 670 {
                                            "KEY_MACRO15"@
                                        } else {
                                            Seq::empty()
                                        }
                                    }
                                }
                            } else {
                                if value < 673 {
                                    if value < 672 {
                                        if value == 671 {
                                            "KEY_MACRO16"@
                                        } else {
                                            Seq::empty()
                                        }
                                    } else {
                                        if value == 672 {
                                            "KEY_MACRO17"@
                                        } else {
                                            Seq::empty()
                                        }
                                    }
                                } else {
                                    if value < 674 {
                                        if value == 673 {
                                            "KEY_MACRO18"@
                                        } else {
                                            Seq::empty()
                                        }
                                    } else {
                                        if value == 674 {
                                            "KEY_MACRO19"@
                                        } else {
                                            Seq::empty()
                                        }
                                    }
                                }
                            }
                        } else {
                            if value < 679 {
                                if value < 677 {
                                    if value < 676 {
                                        if value == 675 {
                                            "KEY_MACRO20"@
                                        } else {
                                            Seq::empty()
                                        }
                                    } else {
                                        if value == 676 {
                                            "KEY_MACRO21"@
                                        } else {
                                            Seq::empty()
                                        }
                                    }
                                } else {
                                    if value < 678 {
                                        if value == 677 {
                                            "KEY_MACRO22"@
                                        } else {
                                            Seq::empty()
                                        }
                                    } else {
                                        if value == 678 {
                                            "KEY_MACRO23"@
                                        } else {
                                            Seq::empty()
                                        }
                                    }
                                }
                            } else {
                                if value < 681 {
                                    if value < 680 {
                                        if value == 679 {
                                            "KEY_MACRO24"@
                                        } else {
                                            Seq::empty()
                                        }
                                    } else {
                                        if value == 680 {
                                            "KEY_MACRO25"@
                                        } else {
                                            Seq::empty()
                                        }
                                    }
                                } else {
                                    if value < 682 {
                                        if value == 681 {
                                            "KEY_MACRO26"@
                                        } else {
                                            Seq::empty()
                                        }
                                    } else {
                                        if value == 682 {
                                            "KEY_MACRO27"@
                                        } else {
                                            Seq::empty()
                                        }
                                    }
                                }
                            }
                        }
                    } else {
                        if value < 693 {
                            if value < 689 {
                                if value < 685 {
                                    if value < 684 {
                                        if value == 683 {
                                            "KEY_MACRO28"@
                                        } else {
                                            Seq::empty()
                                        }
                                    } else {
                                        if value == 684 {
                                            "KEY_MACRO29"@
                                        } else {
                                            Seq::empty()
                                        }
                                    }
                                } else {
                                    if value < 688 {
                                        if value == 685 {
                                            "KEY_MACRO30"@
                                        } else {
                                            Seq::empty()
                                        }
                                    } else {
                                        if value == 688 {
                                            "KEY_MACRO_RECORD_START"@
                                        } else {
                                            Seq::empty()
                                        }
                                    }
                                }
                            } else {
                                if value < 691 {
                                    if value < 690 {
                                        if value == 689 {
                                            "KEY_MACRO_RECORD_STOP"@
                                        } else {
                                            Seq::empty()
                                        }
                                    } else {
                                        if value == 690 {
                                            "KEY_MACRO_PRESET_CYCLE"@
                                        } else {
                                            Seq::empty()
                                        }
                                    }
                                } else {
                                    if value < 692 {
                                        if value == 691 {
                                            "KEY_MACRO_PRESET1"@
                                        } else {
                                            Seq::empty()
                                        }
                                    } else {
                                        if value == 692 {
                                            "KEY_MACRO_PRESET2"@
                                        } else {
                                            Seq::empty()
                                        }
                                    }
                                }
                            }
                        } else {
                            if value < 699 {
                                if value < 697 {
                                    if value < 696 {
                                        if value == 693 {
                                            "KEY_MACRO_PRESET3"@
                                        } else {
                                            Seq::empty()
                                        }
                                    } else {
                                        if value == 696 {
                                            "KEY_KBD_LCD_MENU1"@
                                        } else {
                                            Seq::empty()
                                        }
                                    }
                                } else {
                                    if value < 698 {
                                        if value == 697 {
                                            "KEY_KBD_LCD_MENU2"@
                                        } else {
                                            Seq::empty()
                                        }
                                    } else {
                                        if value == 698 {
                                            "KEY_KBD_LCD_MENU3"@
                                        } else {
                                            Seq::empty()
                                        }
                                    }
                                }
                            } else {
                                if value < 767 {
                                    if value < 700 {
                                        if value == 699 {
                                            "KEY_KBD_LCD_MENU4"@
                                        } else {
                                            Seq::empty()
                                        }
                                    } else {
                                        if value == 700 {
                                            "KEY_KBD_LCD_MENU5"@
                                        } else {
                                            Seq::empty()
                                        }
                                    }
                                } else {
                                    if value < 768 {
                                        if value == 767 {
                                            "KEY_MAX"@
                                        } else {
                                            Seq::empty()
                                        }
                                    } else {
                                        if value == 768 {
                                            "KEY_CNT"@
                                        } else {
                                            Seq::empty()
                                        }
                                    }
                                }
                            }
                        }
                    }
                }
            }
        }
    }
}
/// Each key is named as the kernel header names its number: the name of a
/// key is the first `KEY_*` constant that `linux/input-event-codes.h`
/// defines with the key's code.
pub proof fn lemma_name_is_kernel_name(k: Keycode)
    ensures
        k.spec_name() == kernel_key_name(k.spec_code()),
{
    match k {
        Keycode::KEY_RESERVED => {},
        Keycode::KEY_ESC => {},
        Keycode::KEY_1 => {},
        Keycode::KEY_2 => {},
        Keycode::KEY_3 => {},
        Keycode::KEY_4 => {},
        Keycode::KEY_5 => {},
        Keycode::KEY_6 => {},
        Keycode::KEY_7 => {},
        Keycode::KEY_8 => {},
        Keycode::KEY_9 => {},
        Keycode::KEY_0 => {},
        Keycode::KEY_MINUS => {},
        Keycode::KEY_EQUAL => {},
        Keycode::KEY_BACKSPACE => {},
        Keycode::KEY_TAB => {},
        Keycode::KEY_Q => {},
        Keycode::KEY_W => {},
        Keycode::KEY_E => {},
        Keycode::KEY_R => {},
        Keycode::KEY_T => {},
        Keycode::KEY_Y => {},
        Keycode::KEY_U => {},
        Keycode::KEY_I => {},
        Keycode::KEY_O => {},
        Keycode::KEY_P => {},
        Keycode::KEY_LEFTBRACE => {},
        Keycode::KEY_RIGHTBRACE => {},
        Keycode::KEY_ENTER => {},
        Keycode::KEY_LEFTCTRL => {},
        Keycode::KEY_A => {},
        Keycode::KEY_S => {},
        Keycode::KEY_D => {},
        Keycode::KEY_F => {},
        Keycode::KEY_G => {},
        Keycode::KEY_H => {},
        Keycode::KEY_J => {},
        Keycode::KEY_K => {},
        Keycode::KEY_L => {},
        Keycode::KEY_SEMICOLON => {},
        Keycode::KEY_APOSTROPHE => {},
        Keycode::KEY_GRAVE => {},
        Keycode::KEY_LEFTSHIFT => {},
        Keycode::KEY_BACKSLASH => {},
        Keycode::KEY_Z => {},
        Keycode::KEY_X => {},
        Keycode::KEY_C => {},
        Keycode::KEY_V => {},
        Keycode::KEY_B => {},
        Keycode::KEY_N => {},
        Keycode::KEY_M => {},
        Keycode::KEY_COMMA => {},
        Keycode::KEY_DOT => {},
        Keycode::KEY_SLASH => {},
        Keycode::KEY_RIGHTSHIFT => {},
        Keycode::KEY_KPASTERISK => {},
        Keycode::KEY_LEFTALT => {},
        Keycode::KEY_SPACE => {},
        Keycode::KEY_CAPSLOCK => {},
        Keycode::KEY_F1 => {},
        Keycode::KEY_F2 => {},
        Keycode::KEY_F3 => {},
        Keycode::KEY_F4 => {},
        Keycode::KEY_F5 => {},
        Keycode::KEY_F6 => {},
        Keycode::KEY_F7 => {},
        Keycode::KEY_F8 => {},
        Keycode::KEY_F9 => {},
        Keycode::KEY_F10 => {},
        Keycode::KEY_NUMLOCK => {},
        Keycode::KEY_SCROLLLOCK => {},
        Keycode::KEY_KP7 => {},
        Keycode::KEY_KP8 => {},
        Keycode::KEY_KP9 => {},
        Keycode::KEY_KPMINUS => {},
        Keycode::KEY_KP4 => {},
        Keycode::KEY_KP5 => {},
        Keycode::KEY_KP6 => {},
        Keycode::KEY_KPPLUS => {},
        Keycode::KEY_KP1 => {},
        Keycode::KEY_KP2 => {},
        Keycode::KEY_KP3 => {},
        Keycode::KEY_KP0 => {},
        Keycode::KEY_KPDOT => {},
        Keycode::KEY_ZENKAKUHANKAKU => {},
        Keycode::KEY_102ND => {},
        Keycode::KEY_F11 => {},
        Keycode::KEY_F12 => {},
        Keycode::KEY_RO => {},
        Keycode::KEY_KATAKANA => {},
        Keycode::KEY_HIRAGANA => {},
        Keycode::KEY_HENKAN => {},
        Keycode::KEY_KATAKANAHIRAGANA => {},
        Keycode::KEY_MUHENKAN => {},
        Keycode::KEY_KPJPCOMMA => {},
        Keycode::KEY_KPENTER => {},
        Keycode::KEY_RIGHTCTRL => {},
        Keycode::KEY_KPSLASH => {},
        Keycode::KEY_SYSRQ => {},
        Keycode::KEY_RIGHTALT => {},
        Keycode::KEY_LINEFEED => {},
        Keycode::KEY_HOME => {},
        Keycode::KEY_UP => {},
        Keycode::KEY_PAGEUP => {},
        Keycode::KEY_LEFT => {},
        Keycode::KEY_RIGHT => {},
        Keycode::KEY_END => {},
        Keycode::KEY_DOWN => {},
        Keycode::KEY_PAGEDOWN => {},
        Keycode::KEY_INSERT => {},
        Keycode::KEY_DELETE => {},
        Keycode::KEY_MACRO => {},
        Keycode::KEY_MUTE => {},
        Keycode::KEY_VOLUMEDOWN => {},
        Keycode::KEY_VOLUMEUP => {},
        Keycode::KEY_POWER => {},
        Keycode::KEY_KPEQUAL => {},
        Keycode::KEY_KPPLUSMINUS => {},
        Keycode::KEY_PAUSE => {},
        Keycode::KEY_SCALE => {},
        Keycode::KEY_KPCOMMA => {},
        Keycode::KEY_HANGEUL => {},
        Keycode::KEY_HANJA => {},
        Keycode::KEY_YEN => {},
        Keycode::KEY_LEFTMETA => {},
        Keycode::KEY_RIGHTMETA => {},
        Keycode::KEY_COMPOSE => {},
        Keycode::KEY_STOP => {},
        Keycode::KEY_AGAIN => {},
        Keycode::KEY_PROPS => {},
        Keycode::KEY_UNDO => {},
        Keycode::KEY_FRONT => {},
        Keycode::KEY_COPY => {},
        Keycode::KEY_OPEN => {},
        Keycode::KEY_PASTE => {},
        Keycode::KEY_FIND => {},
        Keycode::KEY_CUT => {},
        Keycode::KEY_HELP => {},
        Keycode::KEY_MENU => {},
        Keycode::KEY_CALC => {},
        Keycode::KEY_SETUP => {},
        Keycode::KEY_SLEEP => {},
        Keycode::KEY_WAKEUP => {},
        Keycode::KEY_FILE => {},
        Keycode::KEY_SENDFILE => {},
        Keycode::KEY_DELETEFILE => {},
        Keycode::KEY_XFER => {},
        Keycode::KEY_PROG1 => {},
        Keycode::KEY_PROG2 => {},
        Keycode::KEY_WWW => {},
        Keycode::KEY_MSDOS => {},
        Keycode::KEY_COFFEE => {},
        Keycode::KEY_ROTATE_DISPLAY => {},
        Keycode::KEY_CYCLEWINDOWS => {},
        Keycode::KEY_MAIL => {},
        Keycode::KEY_BOOKMARKS => {},
        Keycode::KEY_COMPUTER => {},
        Keycode::KEY_BACK => {},
        Keycode::KEY_FORWARD => {},
        Keycode::KEY_CLOSECD => {},
        Keycode::KEY_EJECTCD => {},
        Keycode::KEY_EJECTCLOSECD => {},
        Keycode::KEY_NEXTSONG => {},
        Keycode::KEY_PLAYPAUSE => {},
        Keycode::KEY_PREVIOUSSONG => {},
        Keycode::KEY_STOPCD => {},
        Keycode::KEY_RECORD => {},
        Keycode::KEY_REWIND => {},
        Keycode::KEY_PHONE => {},
        Keycode::KEY_ISO => {},
        Keycode::KEY_CONFIG => {},
        Keycode::KEY_HOMEPAGE => {},
        Keycode::KEY_REFRESH => {},
        Keycode::KEY_EXIT => {},
        Keycode::KEY_MOVE => {},
        Keycode::KEY_EDIT => {},
        Keycode::KEY_SCROLLUP => {},
        Keycode::KEY_SCROLLDOWN => {},
        Keycode::KEY_KPLEFTPAREN => {},
        Keycode::KEY_KPRIGHTPAREN => {},
        Keycode::KEY_NEW => {},
        Keycode::KEY_REDO => {},
        Keycode::KEY_F13 => {},
        Keycode::KEY_F14 => {},
        Keycode::KEY_F15 => {},
        Keycode::KEY_F16 => {},
        Keycode::KEY_F17 => {},
        Keycode::KEY_F18 => {},
        Keycode::KEY_F19 => {},
        Keycode::KEY_F20 => {},
        Keycode::KEY_F21 => {},
        Keycode::KEY_F22 => {},
        Keycode::KEY_F23 => {},
        Keycode::KEY_F24 => {},
        Keycode::KEY_PLAYCD => {},
        Keycode::KEY_PAUSECD => {},
        Keycode::KEY_PROG3 => {},
        Keycode::KEY_PROG4 => {},
        Keycode::KEY_ALL_APPLICATIONS => {},
        Keycode::KEY_SUSPEND => {},
        Keycode::KEY_CLOSE => {},
        Keycode::KEY_PLAY => {},
        Keycode::KEY_FASTFORWARD => {},
        Keycode::KEY_BASSBOOST => {},
        Keycode::KEY_PRINT => {},
        Keycode::KEY_HP => {},
        Keycode::KEY_CAMERA => {},
        Keycode::KEY_SOUND => {},
        Keycode::KEY_QUESTION => {},
        Keycode::KEY_EMAIL => {},
        Keycode::KEY_CHAT => {},
        Keycode::KEY_SEARCH => {},
        Keycode::KEY_CONNECT => {},
        Keycode::KEY_FINANCE => {},
        Keycode::KEY_SPORT => {},
        Keycode::KEY_SHOP => {},
        Keycode::KEY_ALTERASE => {},
        Keycode::KEY_CANCEL => {},
        Keycode::KEY_BRIGHTNESSDOWN => {},
        Keycode::KEY_BRIGHTNESSUP => {},
        Keycode::KEY_MEDIA => {},
        Keycode::KEY_SWITCHVIDEOMODE => {},
        Keycode::KEY_KBDILLUMTOGGLE => {},
        Keycode::KEY_KBDILLUMDOWN => {},
        Keycode::KEY_KBDILLUMUP => {},
        Keycode::KEY_SEND => {},
        Keycode::KEY_REPLY => {},
        Keycode::KEY_FORWARDMAIL => {},
        Keycode::KEY_SAVE => {},
        Keycode::KEY_DOCUMENTS => {},
        Keycode::KEY_BATTERY => {},
        Keycode::KEY_BLUETOOTH => {},
        Keycode::KEY_WLAN => {},
        Keycode::KEY_UWB => {},
        Keycode::KEY_UNKNOWN => {},
        Keycode::KEY_VIDEO_NEXT => {},
        Keycode::KEY_VIDEO_PREV => {},
        Keycode::KEY_BRIGHTNESS_CYCLE => {},
        Keycode::KEY_BRIGHTNESS_AUTO => {},
        Keycode::KEY_DISPLAY_OFF => {},
        Keycode::KEY_WWAN => {},
        Keycode::KEY_RFKILL => {},
        Keycode::KEY_MICMUTE => {},
        Keycode::KEY_OK => {},
        Keycode::KEY_SELECT => {},
        Keycode::KEY_GOTO => {},
        Keycode::KEY_CLEAR => {},
        Keycode::KEY_POWER2 => {},
        Keycode::KEY_OPTION => {},
        Keycode::KEY_INFO => {},
        Keycode::KEY_TIME => {},
        Keycode::KEY_VENDOR => {},
        Keycode::KEY_ARCHIVE => {},
        Keycode::KEY_PROGRAM => {},
        Keycode::KEY_CHANNEL => {},
        Keycode::KEY_FAVORITES => {},
        Keycode::KEY_EPG => {},
        Keycode::KEY_PVR => {},
        Keycode::KEY_MHP => {},
        Keycode::KEY_LANGUAGE => {},
        Keycode::KEY_TITLE => {},
        Keycode::KEY_SUBTITLE => {},
        Keycode::KEY_ANGLE => {},
        Keycode::KEY_FULL_SCREEN => {},
        Keycode::KEY_MODE => {},
        Keycode::KEY_KEYBOARD => {},
        Keycode::KEY_ASPECT_RATIO => {},
        Keycode::KEY_PC => {},
        Keycode::KEY_TV => {},
        Keycode::KEY_TV2 => {},
        Keycode::KEY_VCR => {},
        Keycode::KEY_VCR2 => {},
        Keycode::KEY_SAT => {},
        Keycode::KEY_SAT2 => {},
        Keycode::KEY_CD => {},
        Keycode::KEY_TAPE => {},
        Keycode::KEY_RADIO => {},
        Keycode::KEY_TUNER => {},
        Keycode::KEY_PLAYER => {},
        Keycode::KEY_TEXT => {},
        Keycode::KEY_DVD => {},
        Keycode::KEY_AUX => {},
        Keycode::KEY_MP3 => {},
        Keycode::KEY_AUDIO => {},
        Keycode::KEY_VIDEO => {},
        Keycode::KEY_DIRECTORY => {},
        Keycode::KEY_LIST => {},
        Keycode::KEY_MEMO => {},
        Keycode::KEY_CALENDAR => {},
        Keycode::KEY_RED => {},
        Keycode::KEY_GREEN => {},
        Keycode::KEY_YELLOW => {},
        Keycode::KEY_BLUE => {},
        Keycode::KEY_CHANNELUP => {},
        Keycode::KEY_CHANNELDOWN => {},
        Keycode::KEY_FIRST => {},
        Keycode::KEY_LAST => {},
        Keycode::KEY_AB => {},
        Keycode::KEY_NEXT => {},
        Keycode::KEY_RESTART => {},
        Keycode::KEY_SLOW => {},
        Keycode::KEY_SHUFFLE => {},
        Keycode::KEY_BREAK => {},
        Keycode::KEY_PREVIOUS => {},
        Keycode::KEY_DIGITS => {},
        Keycode::KEY_TEEN => {},
        Keycode::KEY_TWEN => {},
        Keycode::KEY_VIDEOPHONE => {},
        Keycode::KEY_GAMES => {},
        Keycode::KEY_ZOOMIN => {},
        Keycode::KEY_ZOOMOUT => {},
        Keycode::KEY_ZOOMRESET => {},
        Keycode::KEY_WORDPROCESSOR => {},
        Keycode::KEY_EDITOR => {},
        Keycode::KEY_SPREADSHEET => {},
        Keycode::KEY_GRAPHICSEDITOR => {},
        Keycode::KEY_PRESENTATION => {},
        Keycode::KEY_DATABASE => {},
        Keycode::KEY_NEWS => {},
        Keycode::KEY_VOICEMAIL => {},
        Keycode::KEY_ADDRESSBOOK => {},
        Keycode::KEY_MESSENGER => {},
        Keycode::KEY_DISPLAYTOGGLE => {},
        Keycode::KEY_SPELLCHECK => {},
        Keycode::KEY_LOGOFF => {},
        Keycode::KEY_DOLLAR => {},
        Keycode::KEY_EURO => {},
        Keycode::KEY_FRAMEBACK => {},
        Keycode::KEY_FRAMEFORWARD => {},
        Keycode::KEY_CONTEXT_MENU => {},
        Keycode::KEY_MEDIA_REPEAT => {},
        Keycode::KEY_10CHANNELSUP => {},
        Keycode::KEY_10CHANNELSDOWN => {},
        Keycode::KEY_IMAGES => {},
        Keycode::KEY_NOTIFICATION_CENTER => {},
        Keycode::KEY_PICKUP_PHONE => {},
        Keycode::KEY_HANGUP_PHONE => {},
        Keycode::KEY_LINK_PHONE => {},
        Keycode::KEY_DEL_EOL => {},
        Keycode::KEY_DEL_EOS => {},
        Keycode::KEY_INS_LINE => {},
        Keycode::KEY_DEL_LINE => {},
        Keycode::KEY_FN => {},
        Keycode::KEY_FN_ESC => {},
        Keycode::KEY_FN_F1 => {},
        Keycode::KEY_FN_F2 => {},
        Keycode::KEY_FN_F3 => {},
        Keycode::KEY_FN_F4 => {},
        Keycode::KEY_FN_F5 => {},
        Keycode::KEY_FN_F6 => {},
        Keycode::KEY_FN_F7 => {},
        Keycode::KEY_FN_F8 => {},
        Keycode::KEY_FN_F9 => {},
        Keycode::KEY_FN_F10 => {},
        Keycode::KEY_FN_F11 => {},
        Keycode::KEY_FN_F12 => {},
        Keycode::KEY_FN_1 => {},
        Keycode::KEY_FN_2 => {},
        Keycode::KEY_FN_D => {},
        Keycode::KEY_FN_E => {},
        Keycode::KEY_FN_F => {},
        Keycode::KEY_FN_S => {},
        Keycode::KEY_FN_B => {},
        Keycode::KEY_FN_RIGHT_SHIFT => {},
        Keycode::KEY_BRL_DOT1 => {},
        Keycode::KEY_BRL_DOT2 => {},
        Keycode::KEY_BRL_DOT3 => {},
        Keycode::KEY_BRL_DOT4 => {},
        Keycode::KEY_BRL_DOT5 => {},
        Keycode::KEY_BRL_DOT6 => {},
        Keycode::KEY_BRL_DOT7 => {},
        Keycode::KEY_BRL_DOT8 => {},
        Keycode::KEY_BRL_DOT9 => {},
        Keycode::KEY_BRL_DOT10 => {},
        Keycode::KEY_NUMERIC_0 => {},
        Keycode::KEY_NUMERIC_1 => {},
        Keycode::KEY_NUMERIC_2 => {},
        Keycode::KEY_NUMERIC_3 => {},
        Keycode::KEY_NUMERIC_4 => {},
        Keycode::KEY_NUMERIC_5 => {},
        Keycode::KEY_NUMERIC_6 => {},
        Keycode::KEY_NUMERIC_7 => {},
        Keycode::KEY_NUMERIC_8 => {},
        Keycode::KEY_NUMERIC_9 => {},
        Keycode::KEY_NUMERIC_STAR => {},
        Keycode::KEY_NUMERIC_POUND => {},
        Keycode::KEY_NUMERIC_A => {},
        Keycode::KEY_NUMERIC_B => {},
        Keycode::KEY_NUMERIC_C => {},
        Keycode::KEY_NUMERIC_D => {},
        Keycode::KEY_CAMERA_FOCUS => {},
        Keycode::KEY_WPS_BUTTON => {},
        Keycode::KEY_TOUCHPAD_TOGGLE => {},
        Keycode::KEY_TOUCHPAD_ON => {},
        Keycode::KEY_TOUCHPAD_OFF => {},
        Keycode::KEY_CAMERA_ZOOMIN => {},
        Keycode::KEY_CAMERA_ZOOMOUT => {},
        Keycode::KEY_CAMERA_UP => {},
        Keycode::KEY_CAMERA_DOWN => {},
        Keycode::KEY_CAMERA_LEFT => {},
        Keycode::KEY_CAMERA_RIGHT => {},
        Keycode::KEY_ATTENDANT_ON => {},
        Keycode::KEY_ATTENDANT_OFF => {},
        Keycode::KEY_ATTENDANT_TOGGLE => {},
        Keycode::KEY_LIGHTS_TOGGLE => {},
        Keycode::KEY_ALS_TOGGLE => {},
        Keycode::KEY_ROTATE_LOCK_TOGGLE => {},
        Keycode::KEY_REFRESH_RATE_TOGGLE => {},
        Keycode::KEY_BUTTONCONFIG => {},
        Keycode::KEY_TASKMANAGER => {},
        Keycode::KEY_JOURNAL => {},
        Keycode::KEY_CONTROLPANEL => {},
        Keycode::KEY_APPSELECT => {},
        Keycode::KEY_SCREENSAVER => {},
        Keycode::KEY_VOICECOMMAND => {},
        Keycode::KEY_ASSISTANT => {},
        Keycode::KEY_KBD_LAYOUT_NEXT => {},
        Keycode::KEY_EMOJI_PICKER => {},
        Keycode::KEY_DICTATE => {},
        Keycode::KEY_BRIGHTNESS_MIN => {},
        Keycode::KEY_BRIGHTNESS_MAX => {},
        Keycode::KEY_KBDINPUTASSIST_PREV => {},
        Keycode::KEY_KBDINPUTASSIST_NEXT => {},
        Keycode::KEY_KBDINPUTASSIST_PREVGROUP => {},
        Keycode::KEY_KBDINPUTASSIST_NEXTGROUP => {},
        Keycode::KEY_KBDINPUTASSIST_ACCEPT => {},
        Keycode::KEY_KBDINPUTASSIST_CANCEL => {},
        Keycode::KEY_RIGHT_UP => {},
        Keycode::KEY_RIGHT_DOWN => {},
        Keycode::KEY_LEFT_UP => {},
        Keycode::KEY_LEFT_DOWN => {},
        Keycode::KEY_ROOT_MENU => {},
        Keycode::KEY_MEDIA_TOP_MENU => {},
        Keycode::KEY_NUMERIC_11 => {},
        Keycode::KEY_NUMERIC_12 => {},
        Keycode::KEY_AUDIO_DESC => {},
        Keycode::KEY_3D_MODE => {},
        Keycode::KEY_NEXT_FAVORITE => {},
        Keycode::KEY_STOP_RECORD => {},
        Keycode::KEY_PAUSE_RECORD => {},
        Keycode::KEY_VOD => {},
        Keycode::KEY_UNMUTE => {},
        Keycode::KEY_FASTREVERSE => {},
        Keycode::KEY_SLOWREVERSE => {},
        Keycode::KEY_DATA => {},
        Keycode::KEY_ONSCREEN_KEYBOARD => {},
        Keycode::KEY_PRIVACY_SCREEN_TOGGLE => {},
        Keycode::KEY_SELECTIVE_SCREENSHOT => {},
        Keycode::KEY_NEXT_ELEMENT => {},
        Keycode::KEY_PREVIOUS_ELEMENT => {},
        Keycode::KEY_AUTOPILOT_ENGAGE_TOGGLE => {},
        Keycode::KEY_MARK_WAYPOINT => {},
        Keycode::KEY_SOS => {},
        Keycode::KEY_NAV_CHART => {},
        Keycode::KEY_FISHING_CHART => {},
        Keycode::KEY_SINGLE_RANGE_RADAR => {},
        Keycode::KEY_DUAL_RANGE_RADAR => {},
        Keycode::KEY_RADAR_OVERLAY => {},
        Keycode::KEY_TRADITIONAL_SONAR => {},
        Keycode::KEY_CLEARVU_SONAR => {},
        Keycode::KEY_SIDEVU_SONAR => {},
        Keycode::KEY_NAV_INFO => {},
        Keycode::KEY_BRIGHTNESS_MENU => {},
        Keycode::KEY_MACRO1 => {},
        Keycode::KEY_MACRO2 => {},
        Keycode::KEY_MACRO3 => {},
        Keycode::KEY_MACRO4 => {},
        Keycode::KEY_MACRO5 => {},
        Keycode::KEY_MACRO6 => {},
        Keycode::KEY_MACRO7 => {},
        Keycode::KEY_MACRO8 => {},
        Keycode::KEY_MACRO9 => {},
        Keycode::KEY_MACRO10 => {},
        Keycode::KEY_MACRO11 => {},
        Keycode::KEY_MACRO12 => {},
        Keycode::KEY_MACRO13 => {},
        Keycode::KEY_MACRO14 => {},
        Keycode::KEY_MACRO15 => {},
        Keycode::KEY_MACRO16 => {},
        Keycode::KEY_MACRO17 => {},
        Keycode::KEY_MACRO18 => {},
        Keycode::KEY_MACRO19 => {},
        Keycode::KEY_MACRO20 => {},
        Keycode::KEY_MACRO21 => {},
        Keycode::KEY_MACRO22 => {},
        Keycode::KEY_MACRO23 => {},
        Keycode::KEY_MACRO24 => {},
        Keycode::KEY_MACRO25 => {},
        Keycode::KEY_MACRO26 => {},
        Keycode::KEY_MACRO27 => {},
        Keycode::KEY_MACRO28 => {},
        Keycode::KEY_MACRO29 => {},
        Keycode::KEY_MACRO30 => {},
        Keycode::KEY_MACRO_RECORD_START => {},
        Keycode::KEY_MACRO_RECORD_STOP => {},
        Keycode::KEY_MACRO_PRESET_CYCLE => {},
        Keycode::KEY_MACRO_PRESET1 => {},
        Keycode::KEY_MACRO_PRESET2 => {},
        Keycode::KEY_MACRO_PRESET3 => {},
        Keycode::KEY_KBD_LCD_MENU1 => {},
        Keycode::KEY_KBD_LCD_MENU2 => {},
        Keycode::KEY_KBD_LCD_MENU3 => {},
        Keycode::KEY_KBD_LCD_MENU4 => {},
        Keycode::KEY_KBD_LCD_MENU5 => {},
        Keycode::KEY_MAX => {},
        Keycode::KEY_CNT => {},
    }
}

/// A number read as a key gives the key that the kernel header names by that
/// number, and that key has that number as its code.
pub proof fn lemma_from_code_is_kernel_key(value: u16)
    ensures
        Keycode::spec_from_code(value) matches Some(k) ==> k.spec_code() == value && k.spec_name()
            == kernel_key_name(value),
{
    lemma_from_code_sound(value);
    if let Some(k) = Keycode::spec_from_code(value) {
        lemma_name_is_kernel_name(k);
    }
}

impl Keycode {
    /// The modifier keys: both shifts, both controls, both alts and both
    /// meta keys.
    pub open spec fn spec_modifiers() -> Seq<Keycode> {
        seq![
            Keycode::KEY_LEFTSHIFT,
            Keycode::KEY_RIGHTSHIFT,
            Keycode::KEY_LEFTCTRL,
            Keycode::KEY_RIGHTCTRL,
            Keycode::KEY_LEFTALT,
            Keycode::KEY_RIGHTALT,
            Keycode::KEY_LEFTMETA,
            Keycode::KEY_RIGHTMETA,
        ]
    }

    /// Whether the key is one of the modifier keys.
    pub fn is_modifier(&self) -> (b: bool)
        ensures
            b == Self::spec_modifiers().contains(*self),
            b <==> {
                ||| *self == Keycode::KEY_LEFTSHIFT
                ||| *self == Keycode::KEY_RIGHTSHIFT
                ||| *self == Keycode::KEY_LEFTCTRL
                ||| *self == Keycode::KEY_RIGHTCTRL
                ||| *self == Keycode::KEY_LEFTALT
                ||| *self == Keycode::KEY_RIGHTALT
                ||| *self == Keycode::KEY_LEFTMETA
                ||| *self == Keycode::KEY_RIGHTMETA
            },
    {
        proof {
            lemma_modifiers_are_exactly(*self);
        }
        let ghost m = Self::spec_modifiers();
        match self {
            Keycode::KEY_LEFTSHIFT => {
                assert(m[0] == *self);
                true
            },
            Keycode::KEY_RIGHTSHIFT => {
                assert(m[1] == *self);
                true
            },
            Keycode::KEY_LEFTCTRL => {
                assert(m[2] == *self);
                true
            },
            Keycode::KEY_RIGHTCTRL => {
                assert(m[3] == *self);
                true
            },
            Keycode::KEY_LEFTALT => {
                assert(m[4] == *self);
                true
            },
            Keycode::KEY_RIGHTALT => {
                assert(m[5] == *self);
                true
            },
            Keycode::KEY_LEFTMETA => {
                assert(m[6] == *self);
                true
            },
            Keycode::KEY_RIGHTMETA => {
                assert(m[7] == *self);
                true
            },
            _ => false,
        }
    }
}

/// The modifier keys are exactly the two shifts, the two controls, the two
/// alts and the two meta keys: every other key is a regular key.
pub proof fn lemma_modifiers_are_exactly(k: Keycode)
    ensures
        Keycode::spec_modifiers().contains(k) <==> {
            ||| k == Keycode::KEY_LEFTSHIFT
            ||| k == Keycode::KEY_RIGHTSHIFT
            ||| k == Keycode::KEY_LEFTCTRL
            ||| k == Keycode::KEY_RIGHTCTRL
            ||| k == Keycode::KEY_LEFTALT
            ||| k == Keycode::KEY_RIGHTALT
            ||| k == Keycode::KEY_LEFTMETA
            ||| k == Keycode::KEY_RIGHTMETA
        },
{
    let m = Keycode::spec_modifiers();
    assert(m.len() == 8);
    if m.contains(k) {
        let i = choose|i: int| 0 <= i < m.len() && m[i] == k;
        assert(0 <= i < 8);
    } else {
        if k == Keycode::KEY_LEFTSHIFT {
            assert(m[0] == k);
        }
        if k == Keycode::KEY_RIGHTSHIFT {
            assert(m[1] == k);
        }
        if k == Keycode::KEY_LEFTCTRL {
            assert(m[2] == k);
        }
        if k == Keycode::KEY_RIGHTCTRL {
            assert(m[3] == k);
        }
        if k == Keycode::KEY_LEFTALT {
            assert(m[4] == k);
        }
        if k == Keycode::KEY_RIGHTALT {
            assert(m[5] == k);
        }
        if k == Keycode::KEY_LEFTMETA {
            assert(m[6] == k);
        }
        if k == Keycode::KEY_RIGHTMETA {
            assert(m[7] == k);
        }
    }
}

} // verus!
