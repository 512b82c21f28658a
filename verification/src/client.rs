//! The front end's side: the command grammar, and what the front end does
//! with each line of input and with each answer to a command.

use crate::command::{Command, Request};
use crate::errors::FileError;
use crate::file::File;
use crate::message::{Message, MessageView};
use tokio::sync::oneshot;
use vstd::prelude::*;
use vstd::string::*;

verus! {

/// A line of input, understood.
#[derive(Debug, Clone, PartialEq, Eq)]
pub enum UserCommand {
    /// `subscribe <topic>`
    Subscribe(String),
    /// `unsubscribe <topic>`
    Unsubscribe(String),
    /// `msg <message>`
    Msg(String),
    /// `file <path>`
    File(String),
}

/// The four words a command can start with.
#[derive(Debug, Clone, Copy, PartialEq, Eq)]
pub enum Keyword {
    Subscribe,
    Unsubscribe,
    Msg,
    File,
}

impl Keyword {
    /// The keyword as typed, with the space that ends it.
    pub open spec fn text(self) -> Seq<char> {
        match self {
            Keyword::Subscribe => "subscribe "@,
            Keyword::Unsubscribe => "unsubscribe "@,
            Keyword::Msg => "msg "@,
            Keyword::File => "file "@,
        }
    }

    /// The keyword as typed, with the space that ends it.
    pub fn as_str(self) -> (word: &'static str)
        ensures
            word@ == self.text(),
    {
        match self {
            Keyword::Subscribe => "subscribe ",
            Keyword::Unsubscribe => "unsubscribe ",
            Keyword::Msg => "msg ",
            Keyword::File => "file ",
        }
    }
}

impl UserCommand {
    /// The word the command started with.
    pub open spec fn keyword(self) -> Keyword {
        match self {
            UserCommand::Subscribe(_) => Keyword::Subscribe,
            UserCommand::Unsubscribe(_) => Keyword::Unsubscribe,
            UserCommand::Msg(_) => Keyword::Msg,
            UserCommand::File(_) => Keyword::File,
        }
    }

    /// What followed the keyword, trimmed.
    pub open spec fn argument(self) -> Seq<char> {
        match self {
            UserCommand::Subscribe(topic) => topic@,
            UserCommand::Unsubscribe(topic) => topic@,
            UserCommand::Msg(text) => text@,
            UserCommand::File(path) => path@,
        }
    }

    /// The command of the given keyword and argument.
    pub fn new(keyword: Keyword, argument: String) -> (command: UserCommand)
        ensures
            command.keyword() == keyword,
            command.argument() == argument@,
    {
        match keyword {
            Keyword::Subscribe => UserCommand::Subscribe(argument),
            Keyword::Unsubscribe => UserCommand::Unsubscribe(argument),
            Keyword::Msg => UserCommand::Msg(argument),
            Keyword::File => UserCommand::File(argument),
        }
    }
}

/// White space: the characters that trimming removes.
pub open spec fn is_space(c: char) -> bool {
    let code = c as u32;
    ||| 0x09 <= code <= 0x0d
    ||| code == 0x20
    ||| code == 0x85
    ||| code == 0xa0
    ||| code == 0x1680
    ||| 0x2000 <= code <= 0x200a
    ||| code == 0x2028
    ||| code == 0x2029
    ||| code == 0x202f
    ||| code == 0x205f
    ||| code == 0x3000
}

/// The text without the white space it starts with.
pub open spec fn trim_start(text: Seq<char>) -> Seq<char>
    decreases text.len(),
{
    if text.len() > 0 && is_space(text.first()) {
        trim_start(text.drop_first())
    } else {
        text
    }
}

/// The text without the white space it ends with.
pub open spec fn trim_end(text: Seq<char>) -> Seq<char>
    decreases text.len(),
{
    if text.len() > 0 && is_space(text.last()) {
        trim_end(text.drop_last())
    } else {
        text
    }
}

/// The text without white space at either end.
pub open spec fn trimmed(text: Seq<char>) -> Seq<char> {
    trim_end(trim_start(text))
}

/// What a line is understood as: the keyword it starts with and the rest of
/// the line, trimmed. A line that starts with no keyword is not understood.
pub open spec fn parsed(input: Seq<char>) -> Option<(Keyword, Seq<char>)> {
    if Keyword::Subscribe.text().is_prefix_of(input) {
        Some((Keyword::Subscribe, trimmed(input.skip(Keyword::Subscribe.text().len() as int))))
    } else if Keyword::Unsubscribe.text().is_prefix_of(input) {
        Some((Keyword::Unsubscribe, trimmed(input.skip(Keyword::Unsubscribe.text().len() as int))))
    } else if Keyword::Msg.text().is_prefix_of(input) {
        Some((Keyword::Msg, trimmed(input.skip(Keyword::Msg.text().len() as int))))
    } else if Keyword::File.text().is_prefix_of(input) {
        Some((Keyword::File, trimmed(input.skip(Keyword::File.text().len() as int))))
    } else {
        None
    }
}

/// Whether the character is white space.
pub fn is_whitespace(c: char) -> (space: bool)
    ensures
        space == is_space(c),
{
    let code = c as u32;
    (0x09 <= code && code <= 0x0d) || code == 0x20 || code == 0x85 || code == 0xa0 || code
        == 0x1680 || (0x2000 <= code && code <= 0x200a) || code == 0x2028 || code == 0x2029
        || code == 0x202f || code == 0x205f || code == 0x3000
}

/// The characters of a string, one by one.
pub fn chars_of(text: &str) -> (chars: Vec<char>)
    ensures
        chars@ == text@,
{
    let mut chars: Vec<char> = Vec::new();
    for c in it: text.chars()
        invariant
            it.seq() == text@,
            chars@ == it.seq().take(it.index() as int),
    {
        chars.push(c);
        assert(it.seq().take(it.index() + 1) =~= it.seq().take(it.index() as int).push(c));
    }
    assert(text@.take(text@.len() as int) =~= text@);
    chars
}

/// Whether `text` starts with `word`.
pub fn starts_with(text: &Vec<char>, word: &Vec<char>) -> (found: bool)
    ensures
        found == word@.is_prefix_of(text@),
{
    if word.len() > text.len() {
        return false;
    }
    let mut i: usize = 0;
    while i < word.len()
        invariant
            i <= word.len() <= text.len(),
            forall|j: int| 0 <= j < i ==> word@[j] == text@[j],
        decreases word.len() - i,
    {
        if word[i] != text[i] {
            assert(text@.subrange(0, word@.len() as int)[i as int] != word@[i as int]);
            return false;
        }
        i += 1;
    }
    assert(word@ =~= text@.subrange(0, word@.len() as int));
    true
}

/// Where the trimmed form of `text` from `from` on starts and ends.
pub fn trim_bounds(text: &Vec<char>, from: usize) -> (bounds: (usize, usize))
    requires
        from <= text.len(),
    ensures
        from <= bounds.0 <= bounds.1 <= text.len(),
        text@.subrange(bounds.0 as int, bounds.1 as int) == trimmed(text@.skip(from as int)),
{
    let mut start: usize = from;
    while start < text.len() && is_whitespace(text[start])
        invariant
            from <= start <= text.len(),
            trim_start(text@.skip(from as int)) == trim_start(text@.skip(start as int)),
        decreases text.len() - start,
    {
        assert(text@.skip(start as int).drop_first() =~= text@.skip(start + 1));
        start += 1;
    }
    assert(trim_start(text@.skip(start as int)) == text@.skip(start as int));
    let mut end: usize = text.len();
    assert(text@.skip(start as int) =~= text@.subrange(start as int, end as int));
    while end > start && is_whitespace(text[end - 1])
        invariant
            start <= end <= text.len(),
            trim_end(text@.skip(start as int)) == trim_end(text@.subrange(start as int, end as int)),
        decreases end - start,
    {
        assert(text@.subrange(start as int, end as int).drop_last() =~= text@.subrange(
            start as int,
            end - 1,
        ));
        end -= 1;
    }
    assert(trim_end(text@.subrange(start as int, end as int)) == text@.subrange(
        start as int,
        end as int,
    ));
    (start, end)
}

/// The rest of a line, trimmed.
pub fn rest_str(input: &str) -> (rest: &str)
    ensures
        rest@ == trimmed(input@),
{
    let chars = chars_of(input);
    let (start, end) = trim_bounds(&chars, 0);
    assert(chars@.skip(0) =~= chars@);
    input.substring_char(start, end)
}

/// Reads the line as a command of the given keyword, if it starts with it.
fn parse_keyword(input: &str, chars: &Vec<char>, keyword: Keyword) -> (command: Option<
    UserCommand,
>)
    requires
        chars@ == input@,
    ensures
        command is Some <==> keyword.text().is_prefix_of(input@),
        command matches Some(c) ==> c.keyword() == keyword && c.argument() == trimmed(
            input@.skip(keyword.text().len() as int),
        ),
{
    let word = chars_of(keyword.as_str());
    if starts_with(chars, &word) {
        let (start, end) = trim_bounds(chars, word.len());
        let argument = input.substring_char(start, end).to_owned();
        Some(UserCommand::new(keyword, argument))
    } else {
        None
    }
}

/// Reads a line of input as a command: one of the four keywords, a space,
/// and the argument, which is the rest of the line without the white space
/// around it. `None` where the line starts with no keyword.
pub fn parse_command(input: &str) -> (command: Option<UserCommand>)
    ensures
        command is Some <==> parsed(input@) is Some,
        command matches Some(c) ==> parsed(input@) == Some((c.keyword(), c.argument())),
{
    let chars = chars_of(input);
    if let Some(c) = parse_keyword(input, &chars, Keyword::Subscribe) {
        return Some(c);
    }
    if let Some(c) = parse_keyword(input, &chars, Keyword::Unsubscribe) {
        return Some(c);
    }
    if let Some(c) = parse_keyword(input, &chars, Keyword::Msg) {
        return Some(c);
    }
    parse_keyword(input, &chars, Keyword::File)
}

/// What was given on the command line.
#[derive(Debug, Clone, PartialEq, Eq)]
pub struct Args {
    /// The directory to save attachments to.
    pub dir: Option<String>,
}

/// What the front end is to do next.
#[derive(Debug)]
pub enum ClientAction {
    /// Hand the command to the coordinator, then wait on the other end for
    /// the reply.
    Issue(Command, oneshot::Receiver<String>),
    /// Read the file at the path and report the result with `file_loaded`.
    LoadFile(String),
    /// The line was no command: show the commands there are.
    ShowHelp,
}

/// How a wait for a reply ended.
#[derive(Debug, Clone, PartialEq, Eq)]
pub enum Waited {
    /// The reply arrived.
    Answered(String),
    /// The slot was dropped without a reply.
    Dropped,
    /// No reply came within `RESPONSE_TIMEOUT_MS`.
    TimedOut,
}

/// How long the front end waits for the reply to a command, in milliseconds.
pub const RESPONSE_TIMEOUT_MS: u64 = 100;

/// The front end's state: where attachments are saved, and the attachment
/// staged for the next message, if any.
#[derive(Debug)]
pub struct Client {
    download_path: String,
    current_file: Option<File>,
}

/// Whether `action` is what the front end does for a line understood as
/// `parsed`, with `staged` as the attachment staged: a subscription or
/// unsubscription is issued for the topic named, a message is issued with the
/// text given and the staged attachment, a file is to be loaded from the path
/// given, and a line that was not understood gets the help.
pub open spec fn action_for(
    parsed: Option<(Keyword, Seq<char>)>,
    staged: Option<crate::file::FileView>,
    action: ClientAction,
) -> bool {
    match parsed {
        None => action is ShowHelp,
        Some((Keyword::Subscribe, topic)) => action matches ClientAction::Issue(command, _)
            && command.request() == Request::Subscribe(topic),
        Some((Keyword::Unsubscribe, topic)) => action matches ClientAction::Issue(command, _)
            && command.request() == Request::Unsubscribe(topic),
        Some((Keyword::Msg, text)) => action matches ClientAction::Issue(command, _)
            && command.request() == Request::SendMessage(
            MessageView { data: Some(text), file: staged },
        ),
        Some((Keyword::File, path)) => action matches ClientAction::LoadFile(given) && given@
            == path,
    }
}

/// The attachment staged after a line: a message takes it along, any other
/// line leaves it.
pub open spec fn staged_after(
    parsed: Option<(Keyword, Seq<char>)>,
    staged: Option<crate::file::FileView>,
) -> Option<crate::file::FileView> {
    match parsed {
        Some((Keyword::Msg, _)) => None,
        _ => staged,
    }
}

/// What the user is told after a wait for a reply.
pub open spec fn notice_for(waited: Waited) -> Option<Seq<char>> {
    match waited {
        Waited::Answered(reply) => Some("> "@ + reply@),
        Waited::Dropped => None,
        Waited::TimedOut => None,
    }
}

/// What the user is told after a wait for a reply: the reply behind `> `
/// where one arrived. A dropped slot and a timeout are no answer; the user is
/// told nothing and the front end goes on with the next line.
pub fn response_notice(waited: Waited) -> (notice: Option<String>)
    ensures
        notice is Some <==> notice_for(waited) is Some,
        notice matches Some(text) ==> notice_for(waited) == Some(text@),
{
    match waited {
        Waited::Answered(reply) => Some(String::from_str("> ").concat(reply.as_str())),
        Waited::Dropped => None,
        Waited::TimedOut => None,
    }
}

impl Args {
    /// Where attachments are saved: the directory asked for where one was
    /// given and is a directory, else `./downloads`.
    pub open spec fn download_path_spec(self, is_dir: bool) -> Seq<char> {
        if self.dir is Some && is_dir {
            self.dir->0@
        } else {
            "./downloads"@
        }
    }

    /// Where attachments are saved, given whether the directory asked for is
    /// one.
    pub fn download_path(self, is_dir: bool) -> (path: String)
        ensures
            path@ == self.download_path_spec(is_dir),
    {
        match self.dir {
            Some(dir) => if is_dir {
                dir
            } else {
                String::from_str("./downloads")
            },
            None => String::from_str("./downloads"),
        }
    }
}

impl Client {
    /// The attachment staged for the next message.
    pub closed spec fn staged(&self) -> Option<crate::file::FileView> {
        match self.current_file {
            Some(file) => Some(file@),
            None => None,
        }
    }

    /// Where attachments are saved.
    pub closed spec fn downloads(&self) -> Seq<char> {
        self.download_path@
    }

    /// A front end that saves to the directory the arguments ask for, where
    /// that is a directory, and has no attachment staged.
    pub fn new(args: Args, is_dir: bool) -> (client: Client)
        ensures
            client.downloads() == args.download_path_spec(is_dir),
            client.staged() is None,
    {
        Client { download_path: args.download_path(is_dir), current_file: None }
    }

    /// Where attachments are saved.
    pub fn download_path(&self) -> (path: &String)
        ensures
            path@ == self.downloads(),
    {
        &self.download_path
    }

    /// The attachment staged for the next message, if any.
    pub fn current_file(&self) -> (file: Option<&File>)
        ensures
            file is Some <==> self.staged() is Some,
            file matches Some(staged) ==> self.staged() == Some(staged@),
    {
        self.current_file.as_ref()
    }

    /// Decides what to do with a line of input. A message takes the staged
    /// attachment along and leaves none staged.
    pub fn next_action(&mut self, input: &str) -> (action: ClientAction)
        ensures
            action_for(parsed(input@), old(self).staged(), action),
            final(self).staged() == staged_after(parsed(input@), old(self).staged()),
            final(self).downloads() == old(self).downloads(),
    {
        match parse_command(input) {
            Some(UserCommand::Subscribe(topic)) => {
                let (command, receiver) = Command::new_subscribe(topic);
                ClientAction::Issue(command, receiver)
            },
            Some(UserCommand::Unsubscribe(topic)) => {
                let (command, receiver) = Command::new_unsubscribe(topic);
                ClientAction::Issue(command, receiver)
            },
            Some(UserCommand::Msg(text)) => {
                let msg = Message::build(Some(text), self.current_file.take());
                let (command, receiver) = Command::new_send_message(msg);
                ClientAction::Issue(command, receiver)
            },
            Some(UserCommand::File(path)) => ClientAction::LoadFile(path),
            None => ClientAction::ShowHelp,
        }
    }

    /// Takes note of how loading a file went, and words what the user is
    /// told. A file that was read is staged for the next message; a failure
    /// leaves nothing staged.
    pub fn file_loaded(&mut self, loaded: Result<File, FileError>) -> (notice: String)
        ensures
            loaded matches Ok(file) ==> final(self).staged() == Some(file@) && notice@
                == "> File loaded successfully"@,
            loaded matches Err(e) ==> final(self).staged() is None && notice@
                == "> Something went wrong while loading file: "@ + e.text(),
            final(self).downloads() == old(self).downloads(),
    {
        match loaded {
            Ok(file) => {
                self.current_file = Some(file);
                String::from_str("> File loaded successfully")
            },
            Err(e) => {
                self.current_file = None;
                let why = e.to_string();
                String::from_str("> Something went wrong while loading file: ").concat(
                    why.as_str(),
                )
            },
        }
    }
}

/// An attachment goes out with one message only: after a message line
/// nothing is staged, so a second message line issues a message without
/// attachment, whatever was staged before the first.
pub proof fn lemma_attachment_goes_out_once(
    staged: Option<crate::file::FileView>,
    first: Seq<char>,
    second: Seq<char>,
    action: ClientAction,
)
    requires
        parsed(first) matches Some((Keyword::Msg, _)),
        parsed(second) matches Some((Keyword::Msg, _)),
        action_for(parsed(second), staged_after(parsed(first), staged), action),
    ensures
        staged_after(parsed(first), staged) is None,
        parsed(second) matches Some((_, text)) && action matches ClientAction::Issue(command, _)
            && command.request() == Request::SendMessage(
            (MessageView { data: Some(text), file: None }),
        ),
{
}

/// Only a message line takes the staged attachment: after any other line the
/// same attachment is staged as before.
pub proof fn lemma_other_lines_keep_the_attachment(
    staged: Option<crate::file::FileView>,
    line: Seq<char>,
)
    requires
        !(parsed(line) matches Some((Keyword::Msg, _))),
    ensures
        staged_after(parsed(line), staged) == staged,
{
}

} // verus!
