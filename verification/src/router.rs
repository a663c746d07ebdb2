//! The command router: from the text of an incoming message to what the
//! bot does about it.

use crate::commands::{git, link_text, www, www_reply};
use crate::message::{
    block_field, field_views, Embed, EmbedField, EmbedView, OutgoingMessage, OutgoingMessageView,
};
use crate::text::{
    chars_of, lemma_run_end, run_end, same_text, scan_run, split_tokens, tokens, whitespace,
};
use vstd::prelude::*;

verus! {

/// The character that a message must begin with to be taken as a command.
pub const PREFIX: char = '^';

/// What the bot shows as its activity once it is connected.
pub const PRESENCE: &'static str = "^help for help";

/// Name under which the help listing is asked for.
pub const HELP_NAME: &'static str = "help";

pub const GIT_NAME: &'static str = "git";

pub const WIPLTRN_NAME: &'static str = "wipltrn";

pub const WWW_NAME: &'static str = "www";

/// A command with a handler of its own.
#[derive(Clone, Copy, Debug, PartialEq, Eq, Structural)]
pub enum Command {
    /// Gives the full address of a repository.
    Git,
    /// Shows what the media player is playing.
    Wipltrn,
    /// Explains what is wrong with a topic.
    Www,
}

/// What a command expects behind its name.
#[derive(Clone, Copy, Debug, PartialEq, Eq, Structural)]
pub enum Arity {
    /// Exactly this many whitespace-separated tokens.
    Exactly(usize),
    /// Whatever follows, handed on as one text.
    Rest,
}

impl Command {
    /// The name by which the command is called.
    pub open spec fn name(self) -> Seq<char> {
        match self {
            Command::Git => GIT_NAME@,
            Command::Wipltrn => WIPLTRN_NAME@,
            Command::Www => WWW_NAME@,
        }
    }

    /// What the command expects behind its name.
    #[verifier::when_used_as_spec(spec_arity)]
    pub fn arity(self) -> (arity: Arity)
        ensures
            arity == self.spec_arity(),
    {
        match self {
            Command::Git => Arity::Exactly(2),
            Command::Wipltrn => Arity::Rest,
            Command::Www => Arity::Rest,
        }
    }

    /// What the command expects behind its name.
    pub open spec fn spec_arity(self) -> Arity {
        match self {
            Command::Git => Arity::Exactly(2),
            Command::Wipltrn => Arity::Rest,
            Command::Www => Arity::Rest,
        }
    }
}

/// The command registered under `name`. Names are matched exactly, letter
/// case included.
pub open spec fn command_named(name: Seq<char>) -> Option<Command> {
    if name == GIT_NAME@ {
        Some(Command::Git)
    } else if name == WIPLTRN_NAME@ {
        Some(Command::Wipltrn)
    } else if name == WWW_NAME@ {
        Some(Command::Www)
    } else {
        None
    }
}

/// Looks `name` up among the registered commands.
pub fn find_command(name: &str) -> (command: Option<Command>)
    ensures
        command == command_named(name@),
{
    if same_text(name, GIT_NAME) {
        Some(Command::Git)
    } else if same_text(name, WIPLTRN_NAME) {
        Some(Command::Wipltrn)
    } else if same_text(name, WWW_NAME) {
        Some(Command::Www)
    } else {
        None
    }
}

/// Why a command was not run.
#[derive(Clone, Copy, Debug, PartialEq, Eq, Structural)]
pub enum Rejection {
    /// The command takes `expected` arguments and was given another number.
    ArgumentCount { expected: usize, given: usize },
    /// Help was asked about what is neither a command nor the group.
    UnknownHelpTopic,
}

/// What the bot does about a message.
#[derive(Clone, Debug, PartialEq, Eq)]
pub enum Action {
    /// Nothing: the message is no command of this bot.
    Ignore,
    /// Nothing is sent; the reason is for the log.
    Reject(Rejection),
    /// Send this message.
    Send(OutgoingMessage),
    /// Ask the desktop bus for the active player and hand what it reports
    /// to [`crate::commands::wipltrn`].
    QueryPlayer,
}

/// Mathematical model of an [`Action`].
pub enum ActionView {
    Ignore,
    Reject(Rejection),
    Send(OutgoingMessageView),
    QueryPlayer,
}

impl View for Action {
    type V = ActionView;

    open spec fn view(&self) -> ActionView {
        match self {
            Action::Ignore => ActionView::Ignore,
            Action::Reject(rejection) => ActionView::Reject(*rejection),
            Action::Send(message) => ActionView::Send(message@),
            Action::QueryPlayer => ActionView::QueryPlayer,
        }
    }
}

/// Whether `text` begins with the prefix.
pub open spec fn is_command_text(text: Seq<char>) -> bool {
    text.len() > 0 && text[0] == PREFIX
}

/// Where the command name of `text` ends: at the first whitespace behind
/// the prefix, or at the end of the text.
pub open spec fn name_end(text: Seq<char>) -> int {
    run_end(text, 1, false)
}

/// The command name of a text that begins with the prefix: what stands
/// between the prefix and the first whitespace.
pub open spec fn command_name(text: Seq<char>) -> Seq<char> {
    text.subrange(1, name_end(text))
}

/// The argument text of a text that begins with the prefix: what follows
/// the command name and the whitespace behind it, up to the end.
pub open spec fn argument_text(text: Seq<char>) -> Seq<char> {
    text.subrange(run_end(text, name_end(text), true), text.len() as int)
}

/// What the handler of `command` answers to `arguments`, once their number
/// has been found right.
pub open spec fn handled(command: Command, arguments: Seq<char>) -> ActionView {
    match command {
        Command::Git => ActionView::Send(
            OutgoingMessageView::Say(link_text(tokens(arguments)[0], tokens(arguments)[1])),
        ),
        Command::Wipltrn => ActionView::QueryPlayer,
        Command::Www => ActionView::Send(www_reply(arguments)),
    }
}

/// What a registered command does with `arguments`: a command that takes a
/// fixed number of tokens is rejected when given another number, before
/// its handler is reached.
pub open spec fn dispatched(command: Command, arguments: Seq<char>) -> ActionView {
    match command.spec_arity() {
        Arity::Exactly(expected) => {
            if tokens(arguments).len() == expected {
                handled(command, arguments)
            } else {
                ActionView::Reject(
                    Rejection::ArgumentCount {
                        expected,
                        given: tokens(arguments).len() as usize,
                    },
                )
            }
        },
        Arity::Rest => handled(command, arguments),
    }
}

/// Runs `command` on `arguments`.
pub fn dispatch(command: Command, arguments: &str) -> (action: Action)
    ensures
        action@ == dispatched(command, arguments@),
{
    match command {
        Command::Git => {
            let given = split_tokens(arguments);
            if given.len() == 2 {
                assert(given.deep_view()[0] == given[0]@);
                assert(given.deep_view()[1] == given[1]@);
                Action::Send(OutgoingMessage::Say(git(given[0].as_str(), given[1].as_str())))
            } else {
                Action::Reject(Rejection::ArgumentCount { expected: 2, given: given.len() })
            }
        },
        Command::Wipltrn => Action::QueryPlayer,
        Command::Www => Action::Send(www(arguments)),
    }
}

/// The prefix as a text.
pub const PREFIX_TEXT: &'static str = "^";

/// What stands between a command name and its arguments in a listing.
pub const SEPARATOR: &'static str = " ";

/// What ends a line of a listing.
pub const LINE_END: &'static str = "\n";

/// Name of the group that holds the registered commands.
pub const GROUP_NAME: &'static str = "General";

pub const DESCRIPTION_LABEL: &'static str = "Description";

pub const USAGE_LABEL: &'static str = "Usage";

pub const SAMPLES_LABEL: &'static str = "Sample usage";

pub const GIT_DESCRIPTION: &'static str = "Bot will parse the input and output the correct full link to the repo.";

pub const GIT_USAGE: &'static str = "<site> <namespace/repo>";

pub const GIT_SAMPLE_RSFETCH: &'static str = "github Phate6660/rsfetch";

pub const GIT_SAMPLE_ASGL: &'static str = "gitlab ArcticTheRogue/asgl";

pub const GIT_SAMPLE_MUSINFO: &'static str = "codeberg Phate6660/musinfo";

pub const GIT_SAMPLE_RSPHATE: &'static str = "github phate/rsPhate-2.0";

pub const WIPLTRN_DESCRIPTION: &'static str = "Bot will reply with pretty embed containing current music info and cover art of what Phate is listening to.";

pub const WIPLTRN_USAGE: &'static str = "";

pub const WWW_DESCRIPTION: &'static str = "Bot will reply with pretty embed explaining why the topic is bad.";

pub const WWW_USAGE: &'static str = "<topic...>";

pub const WWW_SAMPLE_APPLE: &'static str = "apple";

pub const WWW_SAMPLE_STEAM: &'static str = "steam";

pub const WWW_SAMPLE_SYSTEMD: &'static str = "systemd";

impl Command {
    /// What the command does, in a sentence.
    pub open spec fn description(self) -> Seq<char> {
        match self {
            Command::Git => GIT_DESCRIPTION@,
            Command::Wipltrn => WIPLTRN_DESCRIPTION@,
            Command::Www => WWW_DESCRIPTION@,
        }
    }

    /// The pattern of the command's arguments; empty for a command that
    /// reads none.
    pub open spec fn usage(self) -> Seq<char> {
        match self {
            Command::Git => GIT_USAGE@,
            Command::Wipltrn => WIPLTRN_USAGE@,
            Command::Www => WWW_USAGE@,
        }
    }

    /// Arguments with which the command may be tried.
    pub open spec fn samples(self) -> Seq<Seq<char>> {
        match self {
            Command::Git => seq![
                GIT_SAMPLE_RSFETCH@,
                GIT_SAMPLE_ASGL@,
                GIT_SAMPLE_MUSINFO@,
                GIT_SAMPLE_RSPHATE@,
            ],
            Command::Wipltrn => Seq::empty(),
            Command::Www => seq![WWW_SAMPLE_APPLE@, WWW_SAMPLE_STEAM@, WWW_SAMPLE_SYSTEMD@],
        }
    }

    /// The name by which the command is called.
    pub fn name_text(self) -> (name: &'static str)
        ensures
            name@ == self.name(),
    {
        match self {
            Command::Git => GIT_NAME,
            Command::Wipltrn => WIPLTRN_NAME,
            Command::Www => WWW_NAME,
        }
    }

    /// What the command does, in a sentence.
    pub fn description_text(self) -> (description: &'static str)
        ensures
            description@ == self.description(),
    {
        match self {
            Command::Git => GIT_DESCRIPTION,
            Command::Wipltrn => WIPLTRN_DESCRIPTION,
            Command::Www => WWW_DESCRIPTION,
        }
    }

    /// The pattern of the command's arguments.
    pub fn usage_text(self) -> (usage: &'static str)
        ensures
            usage@ == self.usage(),
    {
        match self {
            Command::Git => GIT_USAGE,
            Command::Wipltrn => WIPLTRN_USAGE,
            Command::Www => WWW_USAGE,
        }
    }

    /// Arguments with which the command may be tried.
    pub fn sample_texts(self) -> (samples: Vec<&'static str>)
        ensures
            samples.deep_view() == self.samples(),
    {
        let mut samples: Vec<&'static str> = Vec::new();
        match self {
            Command::Git => {
                samples.push(GIT_SAMPLE_RSFETCH);
                samples.push(GIT_SAMPLE_ASGL);
                samples.push(GIT_SAMPLE_MUSINFO);
                samples.push(GIT_SAMPLE_RSPHATE);
            },
            Command::Wipltrn => {},
            Command::Www => {
                samples.push(WWW_SAMPLE_APPLE);
                samples.push(WWW_SAMPLE_STEAM);
                samples.push(WWW_SAMPLE_SYSTEMD);
            },
        }
        assert(samples.deep_view() =~= self.samples());
        samples
    }
}

/// The registered commands, in the order in which they are listed.
pub open spec fn registered() -> Seq<Command> {
    seq![Command::Git, Command::Wipltrn, Command::Www]
}

/// How `command` is called with `arguments`: prefix and name, and behind a
/// separator the arguments, if there are any.
pub open spec fn invocation(command: Command, arguments: Seq<char>) -> Seq<char> {
    if arguments.len() == 0 {
        PREFIX_TEXT@ + command.name()
    } else {
        PREFIX_TEXT@ + command.name() + SEPARATOR@ + arguments
    }
}

/// One line for each of `samples`, in order: how `command` is called with
/// it.
pub open spec fn sample_lines(command: Command, samples: Seq<Seq<char>>) -> Seq<char>
    decreases samples.len(),
{
    if samples.len() == 0 {
        Seq::empty()
    } else {
        sample_lines(command, samples.drop_last()) + invocation(command, samples.last())
            + LINE_END@
    }
}

/// The entry of `command` in the summary: its name, and how it is called.
pub open spec fn summary_field(command: Command) -> crate::message::EmbedFieldView {
    block_field(command.name(), invocation(command, command.usage()))
}

/// The summary of all registered commands, one section each.
pub open spec fn summary() -> EmbedView {
    EmbedView {
        title: GROUP_NAME@,
        url: None,
        color: None,
        fields: registered().map_values(|command: Command| summary_field(command)),
        image: None,
    }
}

/// What help says of one command: its description, how it is called and,
/// for a command that has samples, the samples.
pub open spec fn details(command: Command) -> EmbedView {
    let always = seq![
        block_field(DESCRIPTION_LABEL@, command.description()),
        block_field(USAGE_LABEL@, invocation(command, command.usage())),
    ];
    EmbedView {
        title: command.name(),
        url: None,
        color: None,
        fields: if command.samples().len() == 0 {
            always
        } else {
            always.push(
                block_field(SAMPLES_LABEL@, sample_lines(command, command.samples())),
            )
        },
        image: None,
    }
}

/// What help answers: the summary when asked about nothing or about the
/// group, the details of a command when asked about one by its name, and
/// nothing when asked about anything else.
pub open spec fn help_listing(arguments: Seq<char>) -> ActionView {
    let asked = tokens(arguments);
    if asked.len() == 0 {
        ActionView::Send(OutgoingMessageView::Embed(summary()))
    } else if asked.len() == 1 && command_named(asked[0]) is Some {
        ActionView::Send(OutgoingMessageView::Embed(details(command_named(asked[0])->0)))
    } else if asked.len() == 1 && asked[0] == GROUP_NAME@ {
        ActionView::Send(OutgoingMessageView::Embed(summary()))
    } else {
        ActionView::Reject(Rejection::UnknownHelpTopic)
    }
}

/// Writes out how `command` is called with `arguments`.
pub fn invocation_text(command: Command, arguments: &str) -> (line: String)
    ensures
        line@ == invocation(command, arguments@),
{
    let mut line = String::from_str(PREFIX_TEXT);
    line.append(command.name_text());
    if arguments.unicode_len() > 0 {
        line.append(SEPARATOR);
        line.append(arguments);
    }
    line
}

/// Writes out one line for each of `samples`: how `command` is called with
/// it.
fn sample_text(command: Command, samples: &Vec<&'static str>) -> (text: String)
    ensures
        text@ == sample_lines(command, samples.deep_view()),
{
    let ghost all = samples.deep_view();
    let mut text = String::new();
    let mut done: usize = 0;
    while done < samples.len()
        invariant
            done <= samples.len(),
            all == samples.deep_view(),
            text@ == sample_lines(command, all.take(done as int)),
        decreases samples.len() - done,
    {
        let line = invocation_text(command, samples[done]);
        proof {
            let upto = all.take(done as int + 1);
            assert(upto.drop_last() =~= all.take(done as int));
            assert(upto.last() == samples[done as int]@);
        }
        text.append(line.as_str());
        text.append(LINE_END);
        done += 1;
    }
    proof {
        assert(all.take(done as int) =~= all);
    }
    text
}

/// Builds the summary of all registered commands.
pub fn summary_embed() -> (embed: Embed)
    ensures
        embed@ == summary(),
        embed.wf(),
{
    let mut fields: Vec<EmbedField> = Vec::new();
    let git_line = invocation_text(Command::Git, GIT_USAGE);
    fields.push(EmbedField::block(GIT_NAME, git_line.as_str()));
    let wipltrn_line = invocation_text(Command::Wipltrn, WIPLTRN_USAGE);
    fields.push(EmbedField::block(WIPLTRN_NAME, wipltrn_line.as_str()));
    let www_line = invocation_text(Command::Www, WWW_USAGE);
    fields.push(EmbedField::block(WWW_NAME, www_line.as_str()));
    assert(field_views(fields@) =~= summary().fields);
    Embed { title: String::from_str(GROUP_NAME), url: None, color: None, fields, image: None }
}

/// Builds what help says of `command`.
pub fn details_embed(command: Command) -> (embed: Embed)
    ensures
        embed@ == details(command),
        embed.wf(),
{
    let mut fields: Vec<EmbedField> = Vec::new();
    fields.push(EmbedField::block(DESCRIPTION_LABEL, command.description_text()));
    let usage = invocation_text(command, command.usage_text());
    fields.push(EmbedField::block(USAGE_LABEL, usage.as_str()));
    let samples = command.sample_texts();
    if samples.len() > 0 {
        let lines = sample_text(command, &samples);
        fields.push(EmbedField::block(SAMPLES_LABEL, lines.as_str()));
    }
    assert(field_views(fields@) =~= details(command).fields);
    Embed {
        title: String::from_str(command.name_text()),
        url: None,
        color: None,
        fields,
        image: None,
    }
}

/// The help command. `arguments` is everything that followed its name.
pub fn help(arguments: &str) -> (action: Action)
    ensures
        action@ == help_listing(arguments@),
{
    let asked = split_tokens(arguments);
    if asked.len() == 0 {
        return Action::Send(OutgoingMessage::Embed(summary_embed()));
    }
    if asked.len() == 1 {
        assert(asked.deep_view()[0] == asked[0]@);
        match find_command(asked[0].as_str()) {
            Some(command) => {
                return Action::Send(OutgoingMessage::Embed(details_embed(command)));
            },
            None => {
                if same_text(asked[0].as_str(), GROUP_NAME) {
                    return Action::Send(OutgoingMessage::Embed(summary_embed()));
                }
            },
        }
    }
    Action::Reject(Rejection::UnknownHelpTopic)
}

/// What the bot does about a message with this text.
///
/// A text that does not begin with the prefix is no command. Behind the
/// prefix stands the command name, up to the first whitespace; what
/// follows that whitespace is the argument text. Help is answered by the
/// router itself; any other name is looked up among the registered
/// commands, and a name that is not registered is passed over in silence.
pub open spec fn routed(text: Seq<char>) -> ActionView {
    if !is_command_text(text) {
        ActionView::Ignore
    } else if command_name(text) == HELP_NAME@ {
        help_listing(argument_text(text))
    } else {
        match command_named(command_name(text)) {
            Some(command) => dispatched(command, argument_text(text)),
            None => ActionView::Ignore,
        }
    }
}

/// Decides what to do about an incoming message.
pub fn route(text: &str) -> (action: Action)
    ensures
        action@ == routed(text@),
{
    let chars = chars_of(text);
    if chars.len() == 0 || chars[0] != PREFIX {
        return Action::Ignore;
    }
    let name_end = scan_run(&chars, 1, false);
    let arguments_start = scan_run(&chars, name_end, true);
    let name = text.substring_char(1, name_end);
    let arguments = text.substring_char(arguments_start, chars.len());
    if same_text(name, HELP_NAME) {
        return help(arguments);
    }
    match find_command(name) {
        Some(command) => dispatch(command, arguments),
        None => Action::Ignore,
    }
}

/// A text that begins with the prefix is made of the prefix, the command
/// name, a stretch of whitespace and the argument text, in this order. The
/// name holds no whitespace, and the argument text does not begin with
/// any.
pub proof fn law_command_text_parts(text: Seq<char>)
    requires
        is_command_text(text),
    ensures
        1 <= name_end(text) <= run_end(text, name_end(text), true) <= text.len(),
        forall|i: int| 0 <= i < command_name(text).len() ==> !whitespace(#[trigger] command_name(text)[i]),
        forall|i: int|
            name_end(text) <= i < run_end(text, name_end(text), true) ==> whitespace(#[trigger] text[i]),
        argument_text(text).len() > 0 ==> !whitespace(argument_text(text)[0]),
        text == seq![PREFIX] + command_name(text) + text.subrange(
            name_end(text),
            run_end(text, name_end(text), true),
        ) + argument_text(text),
{
    lemma_run_end(text, 1, false);
    lemma_run_end(text, name_end(text), true);
    assert forall|i: int| 0 <= i < command_name(text).len() implies !whitespace(
        #[trigger] command_name(text)[i],
    ) by {
        assert(command_name(text)[i] == text[1 + i]);
    }
    assert(text =~= seq![PREFIX] + command_name(text) + text.subrange(
        name_end(text),
        run_end(text, name_end(text), true),
    ) + argument_text(text));
}

/// A message that does not begin with the prefix is ignored.
pub proof fn law_unprefixed_ignored(text: Seq<char>)
    requires
        text.len() == 0 || text[0] != PREFIX,
    ensures
        routed(text) == ActionView::Ignore,
{
}

/// A message whose command name is not registered is ignored.
pub proof fn law_unregistered_ignored(text: Seq<char>)
    requires
        command_name(text) != HELP_NAME@,
        command_name(text) != GIT_NAME@,
        command_name(text) != WIPLTRN_NAME@,
        command_name(text) != WWW_NAME@,
    ensures
        routed(text) == ActionView::Ignore,
{
}

/// The names of help and of the three commands differ from each other, so
/// each message is answered by the one it names.
pub proof fn law_names_distinct()
    ensures
        command_named(GIT_NAME@) == Some(Command::Git),
        command_named(WIPLTRN_NAME@) == Some(Command::Wipltrn),
        command_named(WWW_NAME@) == Some(Command::Www),
        command_named(HELP_NAME@) is None,
{
    reveal_strlit("git");
    reveal_strlit("wipltrn");
    reveal_strlit("www");
    reveal_strlit("help");
    assert(GIT_NAME@[0] != WWW_NAME@[0]);
    assert(GIT_NAME@.len() != WIPLTRN_NAME@.len());
    assert(WWW_NAME@.len() != WIPLTRN_NAME@.len());
    assert(HELP_NAME@.len() != GIT_NAME@.len());
    assert(HELP_NAME@.len() != WWW_NAME@.len());
    assert(HELP_NAME@.len() != WIPLTRN_NAME@.len());
}

/// The link command is run on exactly two tokens and on them alone: given
/// any other number it sends nothing, and the count is reported.
pub proof fn law_link_needs_two_tokens(text: Seq<char>)
    requires
        is_command_text(text),
        command_name(text) == GIT_NAME@,
    ensures
        tokens(argument_text(text)).len() == 2 ==> routed(text) == ActionView::Send(
            OutgoingMessageView::Say(
                link_text(tokens(argument_text(text))[0], tokens(argument_text(text))[1]),
            ),
        ),
        tokens(argument_text(text)).len() != 2 ==> routed(text) == ActionView::Reject(
            Rejection::ArgumentCount {
                expected: 2,
                given: tokens(argument_text(text)).len() as usize,
            },
        ),
{
    law_names_distinct();
}

/// The topic command is handed the whole argument text as one keyword.
pub proof fn law_topic_takes_rest(text: Seq<char>)
    requires
        is_command_text(text),
        command_name(text) == WWW_NAME@,
    ensures
        routed(text) == ActionView::Send(www_reply(argument_text(text))),
{
    law_names_distinct();
}

/// The now-playing command reads no argument: whatever follows its name,
/// the player is asked.
pub proof fn law_now_playing_asks_player(text: Seq<char>)
    requires
        is_command_text(text),
        command_name(text) == WIPLTRN_NAME@,
    ensures
        routed(text) == ActionView::QueryPlayer,
{
    law_names_distinct();
}

/// The prefix text is the prefix character, and the presence begins with
/// how help is called.
pub proof fn law_presence_names_help()
    ensures
        PREFIX_TEXT@ == seq![PREFIX],
        PRESENCE@.take(1 + HELP_NAME@.len() as int) == PREFIX_TEXT@ + HELP_NAME@,
{
    reveal_strlit("^");
    reveal_strlit("help");
    reveal_strlit("^help for help");
    assert(PREFIX_TEXT@ =~= seq![PREFIX]);
    assert(PRESENCE@.take(1 + HELP_NAME@.len() as int) =~= PREFIX_TEXT@ + HELP_NAME@);
}

} // verus!
