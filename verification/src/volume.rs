//! The widget that shows the volume.
//!
//! A level of loudness is handed through as it comes: its type is a parameter.
use vstd::prelude::*;

verus! {

/// The picture of a muted speaker.
pub const ICON_MUTED: char = '\u{e04f}';

/// The picture of a speaker that is turned all the way down.
pub const ICON_SILENT: char = '\u{e04e}';

/// The picture of a speaker that is turned down.
pub const ICON_LOW: char = '\u{e04d}';

/// The picture of a speaker that is turned up.
pub const ICON_HIGH: char = '\u{e050}';

/// What full loudness amounts to in percent.
pub const PERCENT_FULL: u8 = 100;

/// A speaker that is turned up to this percentage or less is silent.
pub const PERCENT_SILENT: u8 = 0;

/// A speaker that is turned up to less than this percentage is low.
pub const PERCENT_LOW: u8 = 50;

/// Where a command to be run comes from.
pub const SETTINGS_COMMAND: &'static str = "widget.volume.settings_command";

/// The settings of the widget.
#[derive(Debug)]
pub struct Config {
    /// The program that is started when the widget is clicked, and its arguments.
    pub settings_command: Option<Vec<String>>,
}

/// What the widget knows.
#[derive(Debug)]
pub enum State<Level> {
    /// What was last heard of the speaker.
    Listening { volume: Option<Level>, mute: Option<bool> },
    /// Nothing more will be heard of it.
    Failed { message: String },
}

/// What the widget is told.
#[derive(Clone, Debug)]
pub enum Message<Level> {
    NewVolume(Option<Level>),
    NewMute(Option<bool>),
    NewVolumeAndMute(Option<Level>, Option<bool>),
    LaunchSettings,
    Error(String),
}

/// What is heard of the speaker.
#[derive(Debug)]
pub enum AudioMessage<Level> {
    NewVolume(Option<Level>),
    NewMute(Option<bool>),
    NewVolumeAndMute(Option<Level>, Option<bool>),
    Error(String),
}

/// What the widget wants done.
#[derive(Debug)]
pub enum Task {
    Nothing,
    /// Start a program and let it go, on behalf of the setting `source`.
    SpawnDetached { command: Vec<String>, source: &'static str },
}

/// The widget on the screen: its contents in a container, and the container in an
/// area that can be pressed.
#[derive(Debug)]
pub struct Area<'a, Level> {
    /// What the container holds, and nothing else.
    pub content: Face<'a, Level>,
    /// Whether the container keeps the distance from its edges that every widget
    /// keeps.
    pub padded: bool,
    /// What the widget is told when the area is pressed.
    pub on_press: Message<Level>,
}

/// What the widget shows.
#[derive(Debug)]
pub enum Face<'a, Level> {
    /// A picture.
    Icon(char),
    /// A level of loudness, with the picture that goes with it.
    Level(Level),
    /// A text.
    Text(&'a str),
}

/// The widget.
#[derive(Debug)]
pub struct Volume<Level> {
    pub config: Config,
    pub state: State<Level>,
}

impl Default for Config {
    /// Nothing is started.
    fn default() -> (r: Self)
        ensures
            r.settings_command is None,
    {
        Config { settings_command: None }
    }
}

impl Clone for Config {
    fn clone(&self) -> (r: Self)
        ensures
            r.command() == self.command(),
    {
        match &self.settings_command {
            Some(command) => Config { settings_command: Some(clone_command(command)) },
            None => Config { settings_command: None },
        }
    }
}

impl Config {
    /// The program that is started when the widget is clicked, and its arguments.
    pub open spec fn command(self) -> Option<Seq<String>> {
        match self.settings_command {
            Some(command) => Some(command@),
            None => None,
        }
    }
}

fn clone_command(command: &Vec<String>) -> (r: Vec<String>)
    ensures
        r@ == command@,
{
    let mut r: Vec<String> = Vec::new();
    let mut i: usize = 0;
    while i < command.len()
        invariant
            i <= command.len(),
            r@ == command@.take(i as int),
        decreases command.len() - i,
    {
        r.push(command[i].clone());
        i = i + 1;
        assert(r@ =~= command@.take(i as int));
    }
    assert(command@.take(i as int) =~= command@);
    r
}

impl<Level> State<Level> {
    /// What the widget knows after it was told `message`. An error is final: only
    /// another error replaces it.
    pub open spec fn after(self, message: Message<Level>) -> Self {
        match (self, message) {
            (_, Message::Error(message)) => State::Failed { message },
            (State::Listening { volume, mute }, Message::NewVolume(v)) => State::Listening { volume: v, mute },
            (State::Listening { volume, mute }, Message::NewMute(m)) => State::Listening { volume, mute: m },
            (State::Listening { volume, mute }, Message::NewVolumeAndMute(v, m)) => State::Listening {
                volume: v,
                mute: m,
            },
            (state, _) => state,
        }
    }

    /// Whether `face` is what the widget shows when it knows this: that the speaker
    /// is muted; else how loud it is, or a question mark where that is not known;
    /// or the error, word for word.
    pub open spec fn shown_as(self, face: Face<'_, Level>) -> bool {
        match self {
            State::Listening { volume, mute } => if mute == Some(true) {
                face == Face::<Level>::Icon(ICON_MUTED)
            } else {
                match volume {
                    Some(level) => face == Face::Level(level),
                    None => face is Text && face->Text_0@ == "?"@,
                }
            },
            State::Failed { message } => face is Text && face->Text_0@ == message@,
        }
    }
}

impl<Level> Message<Level> {
    /// What the widget is told when `message` is heard of the speaker.
    pub fn heard(message: AudioMessage<Level>) -> (r: Self)
        ensures
            r == (match message {
                AudioMessage::NewVolume(v) => Message::NewVolume(v),
                AudioMessage::NewMute(m) => Message::NewMute(m),
                AudioMessage::NewVolumeAndMute(v, m) => Message::NewVolumeAndMute(v, m),
                AudioMessage::Error(e) => Message::Error(e),
            }),
    {
        match message {
            AudioMessage::NewVolume(v) => Message::NewVolume(v),
            AudioMessage::NewMute(m) => Message::NewMute(m),
            AudioMessage::NewVolumeAndMute(v, m) => Message::NewVolumeAndMute(v, m),
            AudioMessage::Error(e) => Message::Error(e),
        }
    }
}

/// The picture that goes with a level of loudness: by whether its percentage is at
/// most [`PERCENT_SILENT`], and whether it is less than [`PERCENT_LOW`].
pub fn level_icon(silent: bool, low: bool) -> (r: char)
    ensures
        r == (if silent {
            ICON_SILENT
        } else if low {
            ICON_LOW
        } else {
            ICON_HIGH
        }),
{
    if silent {
        ICON_SILENT
    } else if low {
        ICON_LOW
    } else {
        ICON_HIGH
    }
}

impl<Level> Volume<Level> {
    /// A widget that has heard nothing yet, and wants nothing done.
    pub fn new(config: &Config) -> (r: (Self, Task))
        ensures
            r.0.config.command() == config.command(),
            r.0.state == (State::<Level>::Listening { volume: None, mute: None }),
            r.1 is Nothing,
    {
        (
            Volume { config: config.clone(), state: State::Listening { volume: None, mute: None } },
            Task::Nothing,
        )
    }

    /// Tells the widget `message`. A click starts the program that the settings
    /// name, if they name one, whatever the widget knows.
    pub fn update(&mut self, message: Message<Level>) -> (r: Task)
        ensures
            final(self).config == old(self).config,
            final(self).state == old(self).state.after(message),
            match r {
                Task::SpawnDetached { command, source } => {
                    &&& message is LaunchSettings
                    &&& old(self).config.command() == Some(command@)
                    &&& source@ == SETTINGS_COMMAND@
                },
                Task::Nothing => !(message is LaunchSettings) || old(self).config.command() is None,
            },
    {
        match message {
            Message::LaunchSettings => match &self.config.settings_command {
                Some(command) => Task::SpawnDetached {
                    command: clone_command(command),
                    source: SETTINGS_COMMAND,
                },
                None => Task::Nothing,
            },
            Message::Error(message) => {
                self.state = State::Failed { message };
                Task::Nothing
            },
            Message::NewVolume(v) => {
                if let State::Listening { volume, .. } = &mut self.state {
                    *volume = v;
                }
                Task::Nothing
            },
            Message::NewMute(m) => {
                if let State::Listening { mute, .. } = &mut self.state {
                    *mute = m;
                }
                Task::Nothing
            },
            Message::NewVolumeAndMute(v, m) => {
                if let State::Listening { volume, mute } = &mut self.state {
                    *volume = v;
                    *mute = m;
                }
                Task::Nothing
            },
        }
    }

    /// Whether the widget wants to hear of the speaker.
    pub fn subscription(&self) -> (r: bool)
        ensures
            r == (self.state is Listening),
    {
        match self.state {
            State::Listening { .. } => true,
            State::Failed { .. } => false,
        }
    }
}

impl<Level: Copy> Volume<Level> {
    /// The widget on the screen. It shows that the speaker is muted, else how loud
    /// it is, as far as that is known, or the error, word for word. Whatever it
    /// shows, it is padded, and a press on it asks for the settings.
    pub fn view(&self) -> (r: Area<'_, Level>)
        ensures
            self.state.shown_as(r.content),
            r.padded,
            r.on_press == Message::<Level>::LaunchSettings,
    {
        let content = match &self.state {
            State::Listening { mute: Some(true), .. } => Face::Icon(ICON_MUTED),
            State::Listening { volume: Some(volume), .. } => Face::Level(*volume),
            State::Listening { volume: None, .. } => Face::Text("?"),
            State::Failed { message } => Face::Text(message.as_str()),
        };
        Area { content, padded: true, on_press: Message::LaunchSettings }
    }
}

/// Once the widget knows of an error it stays with one: whatever it is told, it
/// listens no more, and only another error changes what it shows.
pub proof fn law_an_error_is_final<Level>(state: State<Level>, message: Message<Level>)
    requires
        state is Failed,
    ensures
        state.after(message) is Failed,
        !(message is Error) ==> state.after(message) == state,
{
}

/// To hear of the volume and of the muting at once is to hear of one after the
/// other, in either order.
pub proof fn law_news_combine<Level>(state: State<Level>, v: Option<Level>, m: Option<bool>)
    ensures
        state.after(Message::NewVolumeAndMute(v, m)) == state.after(Message::NewVolume(v)).after(
            Message::NewMute(m),
        ),
        state.after(Message::NewVolumeAndMute(v, m)) == state.after(Message::NewMute(m)).after(
            Message::NewVolume(v),
        ),
{
}

/// A click changes nothing of what the widget knows.
pub proof fn law_a_click_is_no_news<Level>(state: State<Level>)
    ensures
        state.after(Message::LaunchSettings) == state,
{
}

/// News are taken as they come: what is heard of the volume is what is known of it from
/// then on, and so is what is heard of the muting, and neither changes the other. An
/// error replaces all that is known, word for word. The settings never change.
pub proof fn law_news_are_taken_as_they_come<Level>(
    widget: &mut Volume<Level>,
    message: Message<Level>,
    r: Task,
)
    requires
        call_ensures(Volume::<Level>::update, (widget, message), r),
    ensures
        final(widget).config == old(widget).config,
        message matches Message::Error(error) ==> {
            &&& final(widget).state is Failed
            &&& final(widget).state->message == error
        },
        !(message is Error) ==> (final(widget).state is Failed <==> old(widget).state is Failed),
        !(message is Error) && old(widget).state is Failed ==> final(widget).state == old(
            widget,
        ).state,
        !(message is Error) && old(widget).state is Listening ==> {
            let before = old(widget).state;
            let after = final(widget).state;
            &&& after->volume == (match message {
                Message::NewVolume(v) => v,
                Message::NewVolumeAndMute(v, _) => v,
                _ => before->volume,
            })
            &&& after->mute == (match message {
                Message::NewMute(m) => m,
                Message::NewVolumeAndMute(_, m) => m,
                _ => before->mute,
            })
        },
{
}

/// A program is started exactly when the widget is clicked and the settings name one, and
/// then it is the one that they name, on behalf of that setting.
pub proof fn law_a_click_starts_what_is_set<Level>(
    widget: &mut Volume<Level>,
    message: Message<Level>,
    r: Task,
)
    requires
        call_ensures(Volume::<Level>::update, (widget, message), r),
    ensures
        r is SpawnDetached <==> message is LaunchSettings && old(
            widget,
        ).config.settings_command is Some,
        r is SpawnDetached ==> {
            &&& r->command@ == old(widget).config.settings_command->0@
            &&& r->source@ == "widget.volume.settings_command"@
        },
{
}

/// A new widget has heard nothing, has the settings that it was given, and wants nothing
/// done.
pub proof fn law_a_new_widget_has_heard_nothing<Level>(
    config: &Config,
    r: (Volume<Level>, Task),
)
    requires
        call_ensures(Volume::<Level>::new, (config,), r),
    ensures
        r.1 is Nothing,
        r.0.state is Listening,
        r.0.state->volume is None,
        r.0.state->mute is None,
        r.0.config.settings_command is Some <==> config.settings_command is Some,
        config.settings_command is Some ==> r.0.config.settings_command->0@
            == config.settings_command->0@,
{
}

/// By default no program is set, and a copy of the settings names the same one.
pub proof fn law_settings_are_copied(default: Config, config: &Config, copy: Config)
    requires
        call_ensures(<Config as Default>::default, (), default),
        call_ensures(<Config as Clone>::clone, (config,), copy),
    ensures
        default.settings_command is None,
        copy.settings_command is Some <==> config.settings_command is Some,
        config.settings_command is Some ==> copy.settings_command->0@
            == config.settings_command->0@,
{
}

/// The widget listens until there is an error.
pub proof fn law_the_widget_listens_until_an_error<Level>(widget: &Volume<Level>, r: bool)
    requires
        call_ensures(Volume::<Level>::subscription, (widget,), r),
    ensures
        r <==> !(widget.state is Failed),
{
}

/// What is heard of the speaker is passed on as it is: news of one kind never become news
/// of another kind.
pub proof fn law_what_is_heard_is_passed_on<Level>(
    heard: AudioMessage<Level>,
    r: Message<Level>,
)
    requires
        call_ensures(Message::<Level>::heard, (heard,), r),
    ensures
        !(r is LaunchSettings),
        heard is NewVolume <==> r is NewVolume,
        heard is NewMute <==> r is NewMute,
        heard is NewVolumeAndMute <==> r is NewVolumeAndMute,
        heard is Error <==> r is Error,
        heard is NewVolume ==> r->NewVolume_0 == heard->NewVolume_0,
        heard is NewMute ==> r->NewMute_0 == heard->NewMute_0,
        heard is NewVolumeAndMute ==> {
            &&& r->NewVolumeAndMute_0 == heard->NewVolumeAndMute_0
            &&& r->NewVolumeAndMute_1 == heard->NewVolumeAndMute_1
        },
        heard is Error ==> r->Error_0 == heard->Error_0,
{
}

/// A muted speaker is shown as muted, however loud it is, and only a muted one is. One
/// that is not known to be muted is shown as loud as it is, or with a question mark where
/// that is not known; and an error is shown word for word. A click anywhere on the widget
/// asks for the settings.
pub proof fn law_the_widget_shows_what_it_knows<Level: Copy>(
    widget: &Volume<Level>,
    r: Area<'_, Level>,
)
    requires
        call_ensures(Volume::<Level>::view, (widget,), r),
    ensures
        r.on_press is LaunchSettings,
        r.padded,
        r.content is Icon <==> widget.state is Listening && widget.state->mute == Some(true),
        r.content matches Face::Icon(icon) ==> icon == '\u{e04f}',
        r.content is Level <==> widget.state is Listening && widget.state->mute != Some(true)
            && widget.state->volume is Some,
        r.content matches Face::Level(level) ==> Some(level) == widget.state->volume,
        widget.state is Listening ==> (r.content matches Face::Text(text) ==> text@ == "?"@),
        widget.state matches State::Failed { message } ==> {
            &&& r.content is Text
            &&& r.content->Text_0@ == message@
        },
{
}

/// The picture of a speaker shows how far it is turned up: one that is silent, one that is
/// low and one that is neither have three pictures, and none of them is that of a muted
/// one. Silence goes by zero percent, and a speaker is low below the half of full loudness.
pub proof fn law_pictures_tell_loudness_apart(silent: bool, low: bool, r: char)
    requires
        call_ensures(level_icon, (silent, low), r),
    ensures
        r == '\u{e04e}' <==> silent,
        r == '\u{e04d}' <==> !silent && low,
        r == '\u{e050}' <==> !silent && !low,
        PERCENT_SILENT == 0,
        2 * PERCENT_LOW == PERCENT_FULL,
        PERCENT_FULL == 100,
{
}

} // verus!
