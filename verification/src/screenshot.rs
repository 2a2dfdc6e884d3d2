//! Taking a screenshot: of the whole screen, of the focused window, or of a
//! region that the user drags out.
//!
//! The image comes from `grim`, the dragged region from `slurp`; the image
//! is saved, copied to the clipboard with `wl-copy` and announced with
//! `notify-send`.  [`Capture`] says what is to be done next at each point.

use crate::command::{capturing, plain, texts, Failure, Invocation, InvocationView};
use crate::decimal::{append_padded, is_digit, lemma_padded_text_is_digits, padded_text};
use crate::text::{decoded, trim, trimmed};
use crate::window::{focus_of, focused_window, geometry, geometry_text, Rect};
use vstd::prelude::*;

verus! {

/// The directory below the user's pictures in which screenshots are kept.
pub const DIRECTORY: &'static str = "screenshots";

/// A moment of local time, as a calendar and a clock show it.
#[derive(Debug, Clone, Copy, PartialEq, Eq, Structural)]
pub struct Moment {
    pub year: i32,
    pub month: u32,
    pub day: u32,
    pub hour: u32,
    pub minute: u32,
    pub second: u32,
}

/// A year of the proleptic Gregorian calendar: four digits from 0 to 9999,
/// and a sign before at least four digits outside of that.
pub open spec fn year_text(year: int) -> Seq<char> {
    if 0 <= year <= 9999 {
        padded_text(year as nat, 4)
    } else if year < 0 {
        seq!['-'] + padded_text((-year) as nat, 4)
    } else {
        seq!['+'] + padded_text(year as nat, 4)
    }
}

/// A moment as a file name holds it: year, month, day, hour, minute and
/// second, which is `%Y-%m-%d-%H:%M:%S` in `strftime` notation.  Each number
/// after the year has two digits.
pub open spec fn stamp_text(moment: Moment) -> Seq<char> {
    year_text(moment.year as int) + seq!['-'] + padded_text(moment.month as nat, 2) + seq!['-']
        + padded_text(moment.day as nat, 2) + seq!['-'] + padded_text(moment.hour as nat, 2)
        + seq![':'] + padded_text(moment.minute as nat, 2) + seq![':'] + padded_text(
        moment.second as nat,
        2,
    )
}

/// Whether `c` can stand in a stamp: a digit, the sign of a year, or one of
/// the two separators.
pub open spec fn stamp_char(c: char) -> bool {
    ||| is_digit(c)
    ||| c == '-'
    ||| c == '+'
    ||| c == ':'
}

/// A stamp has at least nineteen characters, and none but digits, signs and
/// separators.
pub proof fn lemma_stamp_text_is_plain(moment: Moment)
    ensures
        stamp_text(moment).len() >= 19,
        forall|i: int|
            0 <= i < stamp_text(moment).len() ==> stamp_char(#[trigger] stamp_text(moment)[i]),
{
    let year = moment.year as int;
    if year < 0 {
        lemma_padded_text_is_digits((-year) as nat, 4);
    } else {
        lemma_padded_text_is_digits(year as nat, 4);
    }
    lemma_padded_text_is_digits(moment.month as nat, 2);
    lemma_padded_text_is_digits(moment.day as nat, 2);
    lemma_padded_text_is_digits(moment.hour as nat, 2);
    lemma_padded_text_is_digits(moment.minute as nat, 2);
    lemma_padded_text_is_digits(moment.second as nat, 2);
    let date = year_text(year) + seq!['-'] + padded_text(moment.month as nat, 2) + seq!['-']
        + padded_text(moment.day as nat, 2);
    assert(forall|i: int| 0 <= i < year_text(year).len() ==> stamp_char(#[trigger] year_text(year)[i]));
    assert(forall|i: int| 0 <= i < date.len() ==> stamp_char(#[trigger] date[i]));
    let hours = date + seq!['-'] + padded_text(moment.hour as nat, 2);
    assert(forall|i: int| 0 <= i < hours.len() ==> stamp_char(#[trigger] hours[i]));
    let minutes = hours + seq![':'] + padded_text(moment.minute as nat, 2);
    assert(forall|i: int| 0 <= i < minutes.len() ==> stamp_char(#[trigger] minutes[i]));
    assert(stamp_text(moment) == minutes + seq![':'] + padded_text(moment.second as nat, 2));
}

/// The name of the file for a screenshot with the stamp `stamp`.
pub open spec fn file_name_at(stamp: Seq<char>) -> Seq<char> {
    "screenshot-"@ + stamp + ".png"@
}

/// The name of a screenshot's file is a single component of a path: pushed
/// onto a directory, it names a file in that directory.
pub proof fn lemma_file_name_is_one_component(moment: Moment)
    ensures
        file_name_at(stamp_text(moment)).len() >= 34,
        forall|i: int|
            0 <= i < file_name_at(stamp_text(moment)).len() ==> file_name_at(
                stamp_text(moment),
            )[i] != '/',
{
    reveal_strlit("screenshot-");
    reveal_strlit(".png");
    lemma_stamp_text_is_plain(moment);
    let stamp = stamp_text(moment);
    let name = file_name_at(stamp);
    assert forall|i: int| 0 <= i < name.len() implies name[i] != '/' by {
        if i < 11 {
            assert(name[i] == "screenshot-"@[i]);
        } else if i < 11 + stamp.len() {
            assert(name[i] == stamp[i - 11]);
            assert(stamp_char(stamp[i - 11]));
        } else {
            assert(name[i] == ".png"@[i - 11 - stamp.len()]);
        }
    }
}

/// Writes `moment` as a file name holds it.
pub fn stamp(moment: Moment) -> (text: String)
    ensures
        text@ == stamp_text(moment),
{
    proof {
        reveal_strlit("-");
        reveal_strlit("+");
        reveal_strlit(":");
    }
    let mut text = String::new();
    let year: i64 = moment.year as i64;
    if year < 0 {
        text.append("-");
        append_padded(&mut text, (-year) as u32, 4);
    } else if year > 9999 {
        text.append("+");
        append_padded(&mut text, year as u32, 4);
    } else {
        append_padded(&mut text, year as u32, 4);
    }
    assert(text@ =~= year_text(moment.year as int));
    text.append("-");
    append_padded(&mut text, moment.month, 2);
    text.append("-");
    append_padded(&mut text, moment.day, 2);
    text.append("-");
    append_padded(&mut text, moment.hour, 2);
    text.append(":");
    append_padded(&mut text, moment.minute, 2);
    text.append(":");
    append_padded(&mut text, moment.second, 2);
    assert(text@ =~= stamp_text(moment));
    text
}

/// The name of the file for a screenshot with the stamp `stamp`.
pub fn file_name_for(stamp: &str) -> (name: String)
    ensures
        name@ == file_name_at(stamp@),
{
    let mut name = String::from_str("screenshot-");
    name.append(stamp);
    name.append(".png");
    name
}

/// The name of the file for a screenshot taken at `moment`.
pub fn file_name(moment: Moment) -> (name: String)
    ensures
        name@ == file_name_at(stamp_text(moment)),
{
    let text = stamp(moment);
    file_name_for(text.as_str())
}

/// `grim` writing the image to its standard output: of `region` where one
/// is given, of everything otherwise.
pub open spec fn grim_command(region: Option<Seq<char>>) -> InvocationView {
    capturing(
        "grim"@,
        match region {
            Some(geometry) => seq!["-g"@, geometry, "-"@],
            None => seq!["-"@],
        },
        None,
    )
}

/// `slurp` with the given colours for the selection's border and for the
/// rest of the screen.
pub open spec fn slurp_command(foreground: Seq<char>, background: Seq<char>) -> InvocationView {
    capturing("slurp"@, seq!["-c"@, foreground, "-b"@, background], None)
}

/// `wl-copy` fed `image`.
pub open spec fn copy_command(image: Seq<u8>) -> InvocationView {
    capturing("wl-copy"@, Seq::empty(), Some(image))
}

/// What the notification says of the file at `path`.
pub open spec fn notice(path: Seq<char>) -> Seq<char> {
    "File saved as "@ + path + " and copied to clipboard"@
}

/// `notify-send` announcing the file at `path` for six seconds, with the
/// image itself as the icon.
pub open spec fn notify_command(path: Seq<char>) -> InvocationView {
    plain("notify-send"@, seq!["Screenshot"@, notice(path), "-t"@, "6000"@, "-i"@, path])
}

/// The command that captures `region`, or the whole screen where there is
/// none.
pub fn grim(region: Option<&str>) -> (invocation: Invocation)
    ensures
        invocation@ == grim_command(
            match region {
                Some(geometry) => Some(geometry@),
                None => None,
            },
        ),
{
    let mut args: Vec<String> = Vec::new();
    match region {
        Some(geometry) => {
            args.push("-g".to_owned());
            args.push(geometry.to_owned());
            args.push("-".to_owned());
            assert(texts(args@) =~= seq!["-g"@, geometry@, "-"@]);
        },
        None => {
            args.push("-".to_owned());
            assert(texts(args@) =~= seq!["-"@]);
        },
    }
    Invocation::capturing("grim", args, None)
}

/// The command that lets the user drag out a region.
pub fn slurp(foreground: &str, background: &str) -> (invocation: Invocation)
    ensures
        invocation@ == slurp_command(foreground@, background@),
{
    let mut args: Vec<String> = Vec::new();
    args.push("-c".to_owned());
    args.push(foreground.to_owned());
    args.push("-b".to_owned());
    args.push(background.to_owned());
    assert(texts(args@) =~= seq!["-c"@, foreground@, "-b"@, background@]);
    Invocation::capturing("slurp", args, None)
}

/// The command that puts `image` on the clipboard.
pub fn copy(image: Vec<u8>) -> (invocation: Invocation)
    ensures
        invocation@ == copy_command(image@),
{
    let args: Vec<String> = Vec::new();
    assert(texts(args@) =~= Seq::empty());
    Invocation::capturing("wl-copy", args, Some(image))
}

/// The command that tells the user where the screenshot went.
pub fn notify(path: &str) -> (invocation: Invocation)
    ensures
        invocation@ == notify_command(path@),
{
    let mut message = String::from_str("File saved as ");
    message.append(path);
    message.append(" and copied to clipboard");
    let mut args: Vec<String> = Vec::new();
    args.push("Screenshot".to_owned());
    args.push(message);
    args.push("-t".to_owned());
    args.push("6000".to_owned());
    args.push("-i".to_owned());
    args.push(path.to_owned());
    assert(texts(args@) =~= seq!["Screenshot"@, notice(path@), "-t"@, "6000"@, "-i"@, path@]);
    Invocation::plain("notify-send", args)
}

/// What to take a picture of.
#[derive(Debug, Clone, PartialEq, Eq)]
pub enum ScreenshotArea {
    /// Everything on every output.
    Fullscreen,
    /// The focused window.
    Window,
    /// A region that the user drags out, with `slurp` drawn in these
    /// colours.
    Region { slurp_fg: String, slurp_bg: String },
}

/// A [`ScreenshotArea`] as plain text.
pub ghost enum AreaView {
    Fullscreen,
    Window,
    Region { slurp_fg: Seq<char>, slurp_bg: Seq<char> },
}

impl View for ScreenshotArea {
    type V = AreaView;

    open spec fn view(&self) -> AreaView {
        match *self {
            ScreenshotArea::Fullscreen => AreaView::Fullscreen,
            ScreenshotArea::Window => AreaView::Window,
            ScreenshotArea::Region { slurp_fg, slurp_bg } => AreaView::Region {
                slurp_fg: slurp_fg@,
                slurp_bg: slurp_bg@,
            },
        }
    }
}

/// How far a screenshot has come.  Each state but the last waits for one
/// reply.
#[derive(Debug, PartialEq, Eq)]
pub enum Capture {
    /// `slurp` is running.
    Selecting,
    /// The window tree has been asked for.
    Locating,
    /// `grim` is running.
    Grabbing,
    /// The image is being written to its file.
    Saving { image: Vec<u8> },
    /// `wl-copy` is running.
    Copying,
    /// The path of the file has been asked for.
    Naming,
    /// `notify-send` is running.
    Notifying,
    /// Nothing is left to do.
    Done,
}

/// A [`Capture`] with the image as plain bytes.
pub ghost enum CaptureView {
    Selecting,
    Locating,
    Grabbing,
    Saving { image: Seq<u8> },
    Copying,
    Naming,
    Notifying,
    Done,
}

impl View for Capture {
    type V = CaptureView;

    open spec fn view(&self) -> CaptureView {
        match *self {
            Capture::Selecting => CaptureView::Selecting,
            Capture::Locating => CaptureView::Locating,
            Capture::Grabbing => CaptureView::Grabbing,
            Capture::Saving { image } => CaptureView::Saving { image: image@ },
            Capture::Copying => CaptureView::Copying,
            Capture::Naming => CaptureView::Naming,
            Capture::Notifying => CaptureView::Notifying,
            Capture::Done => CaptureView::Done,
        }
    }
}

/// What the caller is to do next.
#[derive(Debug, PartialEq, Eq)]
pub enum Request {
    /// Run this command and hand how it ended to [`Capture::answer`].
    Run(Invocation),
    /// Fetch sway's window tree and hand it to [`Capture::locate`].
    Tree,
    /// Write [`Capture::image`] to the screenshot's file and reply that it
    /// is saved.
    Save,
    /// Reply with the path of the screenshot's file.
    Path,
    /// Stop: the screenshot is taken.
    Nothing,
}

/// A [`Request`] with its command as plain text.
pub ghost enum RequestView {
    Run(InvocationView),
    Tree,
    Save,
    Path,
    Nothing,
}

impl View for Request {
    type V = RequestView;

    open spec fn view(&self) -> RequestView {
        match *self {
            Request::Run(invocation) => RequestView::Run(invocation@),
            Request::Tree => RequestView::Tree,
            Request::Save => RequestView::Save,
            Request::Path => RequestView::Path,
            Request::Nothing => RequestView::Nothing,
        }
    }
}

/// What came of a [`Request`].
#[derive(Debug, PartialEq, Eq)]
pub enum Reply {
    /// The command succeeded and wrote this to its standard output.
    Output(Vec<u8>),
    /// The rectangle of the focused window, if the focus leads to one.
    Focus(Option<Rect>),
    /// The image is in its file.
    Saved,
    /// The path of the file.
    Path(String),
}

/// A [`Reply`] as plain text and bytes.
pub ghost enum ReplyView {
    Output(Seq<u8>),
    Focus(Option<Rect>),
    Saved,
    Path(Seq<char>),
}

impl View for Reply {
    type V = ReplyView;

    open spec fn view(&self) -> ReplyView {
        match *self {
            Reply::Output(bytes) => ReplyView::Output(bytes@),
            Reply::Focus(found) => ReplyView::Focus(found),
            Reply::Saved => ReplyView::Saved,
            Reply::Path(path) => ReplyView::Path(path@),
        }
    }
}

/// The ways in which a screenshot comes to nothing without a command
/// failing.
#[derive(Debug, Clone, Copy, PartialEq, Eq, Structural)]
pub enum Fault {
    /// The focus does not lead to a window.
    NoFocusedWindow,
    /// What `slurp` printed is not UTF-8.
    SelectionNotText,
    /// The reply does not answer the request that was made.
    OutOfTurn,
    /// A command was run and failed.
    CommandFailed,
}

/// A [`Fault`], with the decoder's own account where text was expected, and
/// with the failure of the command where one failed.
#[derive(Debug, PartialEq, Eq)]
pub enum ScreenshotError {
    NoFocusedWindow,
    SelectionNotText(std::string::FromUtf8Error),
    OutOfTurn,
    CommandFailed(Failure),
}

impl View for ScreenshotError {
    type V = Fault;

    open spec fn view(&self) -> Fault {
        match *self {
            ScreenshotError::NoFocusedWindow => Fault::NoFocusedWindow,
            ScreenshotError::SelectionNotText(_) => Fault::SelectionNotText,
            ScreenshotError::OutOfTurn => Fault::OutOfTurn,
            ScreenshotError::CommandFailed(_) => Fault::CommandFailed,
        }
    }
}

/// The state and request that a step leads to, or the fault that ends the
/// screenshot.
pub type Turn = Result<(CaptureView, RequestView), Fault>;

/// The view of what [`Capture::advance`] returns.
pub open spec fn turn_view(turn: Result<(Capture, Request), ScreenshotError>) -> Turn {
    match turn {
        Ok((capture, request)) => Ok((capture@, request@)),
        Err(error) => Err(error@),
    }
}

/// Where a screenshot of `area` starts.
pub open spec fn begin(area: AreaView) -> (CaptureView, RequestView) {
    match area {
        AreaView::Fullscreen => (CaptureView::Grabbing, RequestView::Run(grim_command(None))),
        AreaView::Window => (CaptureView::Locating, RequestView::Tree),
        AreaView::Region { slurp_fg, slurp_bg } => (
            CaptureView::Selecting,
            RequestView::Run(slurp_command(slurp_fg, slurp_bg)),
        ),
    }
}

/// The step that `reply` leads to from `state`.
///
/// The region that `slurp` prints is trimmed and handed to `grim`, and so
/// is the rectangle of the focused window.  The image that `grim` prints is
/// saved first, then copied, then announced under the path it was saved at.
/// A reply that the state does not wait for is a fault.
pub open spec fn next(state: CaptureView, reply: ReplyView) -> Turn {
    match (state, reply) {
        (CaptureView::Selecting, ReplyView::Output(bytes)) => match decoded(bytes) {
            Some(text) => Ok(
                (CaptureView::Grabbing, RequestView::Run(grim_command(Some(trimmed(text))))),
            ),
            None => Err(Fault::SelectionNotText),
        },
        (CaptureView::Locating, ReplyView::Focus(found)) => match found {
            Some(rect) => Ok(
                (CaptureView::Grabbing, RequestView::Run(grim_command(Some(geometry_text(rect))))),
            ),
            None => Err(Fault::NoFocusedWindow),
        },
        (CaptureView::Grabbing, ReplyView::Output(image)) => Ok(
            (CaptureView::Saving { image }, RequestView::Save),
        ),
        (CaptureView::Saving { image }, ReplyView::Saved) => Ok(
            (CaptureView::Copying, RequestView::Run(copy_command(image))),
        ),
        (CaptureView::Copying, ReplyView::Output(_)) => Ok((CaptureView::Naming, RequestView::Path)),
        (CaptureView::Naming, ReplyView::Path(path)) => Ok(
            (CaptureView::Notifying, RequestView::Run(notify_command(path))),
        ),
        (CaptureView::Notifying, ReplyView::Output(_)) => Ok(
            (CaptureView::Done, RequestView::Nothing),
        ),
        _ => Err(Fault::OutOfTurn),
    }
}

/// How many replies a screenshot in `state` still waits for.
pub open spec fn replies_left(state: CaptureView) -> nat {
    match state {
        CaptureView::Selecting => 6,
        CaptureView::Locating => 6,
        CaptureView::Grabbing => 5,
        CaptureView::Saving { .. } => 4,
        CaptureView::Copying => 3,
        CaptureView::Naming => 2,
        CaptureView::Notifying => 1,
        CaptureView::Done => 0,
    }
}

/// A screenshot starts with something to do.
pub proof fn lemma_begin_asks(area: AreaView)
    ensures
        !(begin(area).1 is Nothing),
        0 < replies_left(begin(area).0) <= 6,
{
}

/// Every step that does not end in a fault brings the screenshot one reply
/// closer to its end, and nothing more is asked for exactly when the end is
/// reached.  So a caller that answers each request comes to a stop after at
/// most six replies.
pub proof fn lemma_next_counts_down(state: CaptureView, reply: ReplyView)
    ensures
        next(state, reply) matches Ok((after, request)) ==> {
            &&& replies_left(after) + 1 == replies_left(state)
            &&& request is Nothing <==> after is Done
        },
{
}

/// What the user is told of a fault.
pub open spec fn description(fault: Fault) -> Seq<char> {
    match fault {
        Fault::NoFocusedWindow => "Cannot get focused window"@,
        Fault::SelectionNotText => "Selection is not valid UTF-8"@,
        Fault::OutOfTurn => "Reply does not answer the request"@,
        Fault::CommandFailed => "Command failed"@,
    }
}

impl Fault {
    /// What the user is told of this fault.
    pub fn describe(self) -> (text: &'static str)
        ensures
            text@ == description(self),
    {
        match self {
            Fault::NoFocusedWindow => "Cannot get focused window",
            Fault::SelectionNotText => "Selection is not valid UTF-8",
            Fault::OutOfTurn => "Reply does not answer the request",
            Fault::CommandFailed => "Command failed",
        }
    }
}

impl ScreenshotError {
    /// Which fault this is.
    pub fn fault(&self) -> (fault: Fault)
        ensures
            fault == self@,
    {
        match self {
            ScreenshotError::NoFocusedWindow => Fault::NoFocusedWindow,
            ScreenshotError::SelectionNotText(_) => Fault::SelectionNotText,
            ScreenshotError::OutOfTurn => Fault::OutOfTurn,
            ScreenshotError::CommandFailed(_) => Fault::CommandFailed,
        }
    }
}

impl Capture {
    /// Starts a screenshot of `area`.
    pub fn start(area: ScreenshotArea) -> (first: (Capture, Request))
        ensures
            (first.0@, first.1@) == begin(area@),
    {
        match area {
            ScreenshotArea::Fullscreen => (Capture::Grabbing, Request::Run(grim(None))),
            ScreenshotArea::Window => (Capture::Locating, Request::Tree),
            ScreenshotArea::Region { slurp_fg, slurp_bg } => (
                Capture::Selecting,
                Request::Run(slurp(slurp_fg.as_str(), slurp_bg.as_str())),
            ),
        }
    }

    /// The image that is waiting to be saved.
    pub fn image(&self) -> (image: Option<&Vec<u8>>)
        ensures
            match self@ {
                CaptureView::Saving { image: bytes } => image matches Some(held) && held@ == bytes,
                _ => image is None,
            },
    {
        match self {
            Capture::Saving { image } => Some(image),
            _ => None,
        }
    }

    /// Takes the step that `reply` leads to.
    pub fn advance(self, reply: Reply) -> (turn: Result<(Capture, Request), ScreenshotError>)
        ensures
            turn_view(turn) == next(self@, reply@),
    {
        match self {
            Capture::Selecting => match reply {
                Reply::Output(bytes) => match String::from_utf8(bytes) {
                    Ok(text) => Ok(
                        (Capture::Grabbing, Request::Run(grim(Some(trim(text.as_str()))))),
                    ),
                    Err(error) => Err(ScreenshotError::SelectionNotText(error)),
                },
                _ => Err(ScreenshotError::OutOfTurn),
            },
            Capture::Locating => match reply {
                Reply::Focus(Some(rect)) => {
                    let region = geometry(rect);
                    Ok((Capture::Grabbing, Request::Run(grim(Some(region.as_str())))))
                },
                Reply::Focus(None) => Err(ScreenshotError::NoFocusedWindow),
                _ => Err(ScreenshotError::OutOfTurn),
            },
            Capture::Grabbing => match reply {
                Reply::Output(image) => Ok((Capture::Saving { image }, Request::Save)),
                _ => Err(ScreenshotError::OutOfTurn),
            },
            Capture::Saving { image } => match reply {
                Reply::Saved => Ok((Capture::Copying, Request::Run(copy(image)))),
                _ => Err(ScreenshotError::OutOfTurn),
            },
            Capture::Copying => match reply {
                Reply::Output(_) => Ok((Capture::Naming, Request::Path)),
                _ => Err(ScreenshotError::OutOfTurn),
            },
            Capture::Naming => match reply {
                Reply::Path(path) => Ok((Capture::Notifying, Request::Run(notify(path.as_str())))),
                _ => Err(ScreenshotError::OutOfTurn),
            },
            Capture::Notifying => match reply {
                Reply::Output(_) => Ok((Capture::Done, Request::Nothing)),
                _ => Err(ScreenshotError::OutOfTurn),
            },
            Capture::Done => Err(ScreenshotError::OutOfTurn),
        }
    }

    /// Takes the step that the end of a command leads to.  A command that
    /// failed ends the screenshot with its failure, whatever the state; one
    /// that succeeded is a reply with its output.
    pub fn answer(self, outcome: Result<Vec<u8>, Failure>) -> (turn: Result<
        (Capture, Request),
        ScreenshotError,
    >)
        ensures
            match outcome {
                Ok(output) => turn_view(turn) == next(self@, ReplyView::Output(output@)),
                Err(failure) => turn == Err::<(Capture, Request), ScreenshotError>(
                    ScreenshotError::CommandFailed(failure),
                ),
            },
    {
        match outcome {
            Ok(output) => self.advance(Reply::Output(output)),
            Err(failure) => Err(ScreenshotError::CommandFailed(failure)),
        }
    }

    /// Follows the focus through sway's `tree` and takes the step that the
    /// window found there, or the lack of one, leads to.
    pub fn locate(self, tree: swayipc::Node) -> (turn: Result<(Capture, Request), ScreenshotError>)
        ensures
            turn_view(turn) == next(self@, ReplyView::Focus(focus_of(tree))),
    {
        self.advance(Reply::Focus(focused_window(tree)))
    }
}

} // verus!
