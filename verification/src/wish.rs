//! The bridge to the `wish` interpreter, as a state machine.
//!
//! A [`Wish`] holds everything that the bridge knows: whether a start was
//! claimed, the phase of the subprocess, the identifier counter, the queue
//! of chunks that wait for the writer, and the query whose reply is awaited.
//! The functions of this module are its transitions. They perform no I/O:
//! the caller launches the program, writes what [`take_outgoing`] hands out,
//! each chunk followed by a line feed, and hands in what it read.

use crate::chars::{
    chars_of, lemma_numbered_apart, push_signed_decimal, same_text, signed_decimal, string_of, text_of_utf8, trim,
    trim_chars,
};
use crate::flag::{flag_get, flag_new, flag_of, flag_set};
use crate::protocol::{decode, decode_line, event_id, logical_event, DecodedEvent, EventView};
use once_cell::sync::OnceCell;
use vstd::prelude::*;
use vstd::string::*;
use vstd::utf8::{decode_utf8, valid_utf8};

verus! {

/// Where the subprocess stands.
#[derive(Clone, Copy, Debug, PartialEq, Eq, Structural)]
pub enum Phase {
    /// No subprocess was connected yet.
    Idle,
    /// The subprocess runs and takes commands.
    Running,
    /// The subprocess was killed, or its pipe failed.
    Closed,
}

/// The kinds of failure that the bridge reports.
#[derive(Clone, Copy, Debug, PartialEq, Eq, Structural)]
pub enum TkErrorKind {
    /// The program could not be launched, or a start was claimed before.
    Startup,
    /// A reply was due and none could be read as text.
    Protocol,
    /// A command was sent to a bridge that does not run.
    Write,
    /// A widget identifier that the name registry does not hold.
    UnknownWidget,
}

/// Reports an error in interacting with the Tk program.
#[derive(Debug)]
pub struct TkError {
    pub kind: TkErrorKind,
    pub message: String,
}

/// The toolkit's root container.
#[derive(Debug)]
pub struct TkTopLevel {
    pub id: String,
}

/// The state of the bridge as contracts see it.
pub struct WishView {
    /// The trace flag: `None` until a start is claimed.
    pub trace: Option<bool>,
    pub phase: Phase,
    /// The number that the last identifier was made of.
    pub next_id: int,
    /// The chunks that wait for the writer, oldest first.
    pub outbox: Seq<Seq<char>>,
    /// The query whose reply is awaited.
    pub asked: Option<Seq<char>>,
}

impl WishView {
    /// The bridge before anything happened.
    pub open spec fn fresh() -> WishView {
        WishView { trace: None, phase: Phase::Idle, next_id: 0, outbox: seq![], asked: None }
    }

    pub open spec fn running(self) -> bool {
        self.phase == Phase::Running
    }

    /// A command and its line terminator join the queue of a running
    /// bridge; any other bridge stays as it is.
    pub open spec fn tell(self, msg: Seq<char>) -> WishView {
        if self.running() {
            WishView { outbox: self.outbox.push(msg).push("\n"@), ..self }
        } else {
            self
        }
    }

    /// The commands of `msgs` are told one after the other.
    pub open spec fn tell_all(self, msgs: Seq<Seq<char>>) -> WishView
        decreases msgs.len(),
    {
        if msgs.len() == 0 {
            self
        } else {
            self.tell_all(msgs.drop_last()).tell(msgs.last())
        }
    }

    /// A query can be asked of a running bridge that awaits no reply.
    pub open spec fn can_ask(self) -> bool {
        self.running() && self.asked is None
    }

    /// The query joins the queue and its reply is awaited.
    pub open spec fn ask(self, msg: Seq<char>) -> WishView {
        if self.can_ask() {
            WishView { asked: Some(msg), ..self.tell(msg) }
        } else {
            self
        }
    }

    /// No reply is awaited any more.
    pub open spec fn answered(self) -> WishView {
        WishView { asked: None, ..self }
    }

    /// The subprocess is gone.
    pub open spec fn closed(self) -> WishView {
        WishView { phase: Phase::Closed, asked: None, ..self }
    }

    /// One more identifier was handed out.
    pub open spec fn bumped(self) -> WishView {
        WishView { next_id: self.next_id + 1, ..self }
    }

    /// The start was claimed: the trace flag is recorded, as off.
    pub open spec fn claimed(self) -> WishView {
        WishView { trace: Some(false), ..self }
    }

    /// The subprocess was connected: it runs, and the commands that
    /// prepare it wait in the queue.
    pub open spec fn connected(self) -> WishView {
        WishView { phase: Phase::Running, outbox: self.outbox + init_commands(), ..self }
    }

    /// What connecting comes to: a program that was launched is connected
    /// to an idle bridge; anything else leaves the bridge as it is.
    pub open spec fn connect(self, launched: bool) -> WishView {
        if launched && self.phase == Phase::Idle {
            self.connected()
        } else {
            self
        }
    }

    /// A bridge can be started: none was started before, and it is idle.
    pub open spec fn can_start(self) -> bool {
        self.trace is None && self.phase == Phase::Idle
    }

    /// What a start comes to: a program that was launched is connected to
    /// a bridge that can be started, and only with that is the start
    /// claimed; a start that fails leaves the bridge as it is, so that a
    /// later one can succeed.
    pub open spec fn start(self, launched: bool) -> WishView {
        if launched && self.can_start() {
            self.connected().claimed()
        } else {
            self
        }
    }

    /// What reading a reply comes to: the reply that was awaited is taken;
    /// where none can be taken, because the read failed, gave no byte or
    /// gave bytes that are no text, the bridge is closed; where none was
    /// awaited the bridge stays as it is.
    pub open spec fn reply(self, input: Option<Seq<u8>>) -> WishView {
        if self.asked is None {
            self
        } else if readable(input) {
            self.answered()
        } else {
            self.closed()
        }
    }

    /// What one turn of the event loop comes to: the exit line closes a
    /// running bridge.
    pub open spec fn turn(self, input: Option<Seq<u8>>) -> WishView {
        if event_of(input) == EventView::Exit && self.running() {
            self.closed()
        } else {
            self
        }
    }

    /// The queue was handed to the writer.
    pub open spec fn drained(self) -> WishView {
        WishView { outbox: seq![], ..self }
    }
}

/// The identifier of the `n`-th widget below `parent`: `.r<n>` below the
/// root `.`, `<parent>.r<n>` below any other.
pub open spec fn wid_text(parent: Seq<char>, n: int) -> Seq<char> {
    if parent == "."@ {
        ".r"@ + signed_decimal(n)
    } else {
        parent + ".r"@ + signed_decimal(n)
    }
}

/// The name of the `n`-th variable: `::var<n>`.
pub open spec fn var_text(n: int) -> Seq<char> {
    "::var"@ + signed_decimal(n)
}

/// The commands that prepare a fresh interpreter: the chart package, the
/// close button's `exit` line, no tear-off menus, and the two procedures
/// that report a chosen font and a moved scale.
pub open spec fn init_commands() -> Seq<Seq<char>> {
    seq![
        "package require Plotchart"@,
        "wm protocol . WM_DELETE_WINDOW { puts stdout {exit} ; flush stdout } "@,
        "option add *tearOff 0"@,
        "proc font_choice {w font args} {\n    set res {font }\n    append res [font actual $font]\n    puts $res\n    flush stdout\n}"@,
        "proc scale_value {w value args} {\n    puts cb1f-$w-$value\n    flush stdout\n}"@,
    ]
}

/// The text that was read: none where the read failed, or where the bytes
/// are not UTF-8.
pub open spec fn line_of(input: Option<Seq<u8>>) -> Option<Seq<char>> {
    match input {
        Some(bytes) => if valid_utf8(bytes) {
            Some(decode_utf8(bytes))
        } else {
            None
        },
        None => None,
    }
}

/// The event that was read: unrecognized where no text was.
pub open spec fn event_of(input: Option<Seq<u8>>) -> EventView {
    match line_of(input) {
        Some(line) => decode(line),
        None => EventView::Unrecognized,
    }
}

/// Something was read: the read did not fail, and it gave at least one
/// byte. A read of no bytes is what the closed output of the interpreter
/// gives.
pub open spec fn was_read(input: Option<Seq<u8>>) -> bool {
    match input {
        Some(bytes) => bytes.len() > 0,
        None => false,
    }
}

/// A reply can be taken from what was read: something was read, and it is
/// text.
pub open spec fn readable(input: Option<Seq<u8>>) -> bool {
    was_read(input) && line_of(input) is Some
}

/// The reply that was read: the text without the white space around it,
/// where a reply was awaited and one can be taken from what was read.
pub open spec fn reply_of(w: WishView, input: Option<Seq<u8>>) -> Option<Seq<char>> {
    if w.asked is Some && readable(input) {
        Some(trim(line_of(input)->0))
    } else {
        None
    }
}

/// What is handed in as read, as contracts see it.
pub open spec fn bytes_of(input: Option<&[u8]>) -> Option<Seq<u8>> {
    match input {
        Some(bytes) => Some(bytes@),
        None => None,
    }
}

pub open spec fn startup_taken_text() -> Seq<char> {
    "Failed to set trace option"@
}

pub open spec fn launch_failed_text(program: Seq<char>) -> Seq<char> {
    "Failed to start "@ + program + " process"@
}

pub open spec fn started_twice_text(program: Seq<char>) -> Seq<char> {
    "Do not start "@ + program + " twice"@
}

pub open spec fn not_running_text() -> Seq<char> {
    "Wish is not running"@
}

pub open spec fn cannot_ask_text() -> Seq<char> {
    "Wish cannot take a query now"@
}

pub open spec fn no_reply_text() -> Seq<char> {
    "Eval-wish failed to get a result"@
}

pub open spec fn not_asked_text() -> Seq<char> {
    "No query awaits a reply"@
}

/// The message of the error with which a start fails, if it fails: a
/// bridge was started before, or the program was not launched, or the
/// bridge is not idle.
pub open spec fn start_failure(w: WishView, program: Seq<char>, launched: bool) -> Option<
    Seq<char>,
> {
    if w.trace is Some {
        Some(startup_taken_text())
    } else {
        connect_failure(w, program, launched)
    }
}

/// The message of the error with which connecting fails, if it fails.
pub open spec fn connect_failure(w: WishView, program: Seq<char>, launched: bool) -> Option<
    Seq<char>,
> {
    if !launched {
        Some(launch_failed_text(program))
    } else if w.phase != Phase::Idle {
        Some(started_twice_text(program))
    } else {
        None
    }
}

/// Telling a list of commands and then another is telling the two lists
/// joined.
pub proof fn lemma_tell_all_joined(w: WishView, a: Seq<Seq<char>>, b: Seq<Seq<char>>)
    ensures
        w.tell_all(a + b) == w.tell_all(a).tell_all(b),
    decreases b.len(),
{
    if b.len() == 0 {
        assert(a + b == a);
    } else {
        lemma_tell_all_joined(w, a, b.drop_last());
        assert((a + b).drop_last() == a + b.drop_last());
        assert((a + b).last() == b.last());
    }
}

/// Telling commands touches the queue only: the counter can be set before
/// or after.
pub proof fn lemma_tell_all_keeps_counter(w: WishView, msgs: Seq<Seq<char>>, n: int)
    ensures
        (WishView { next_id: n, ..w }).tell_all(msgs) == (WishView {
            next_id: n,
            ..w.tell_all(msgs)
        }),
        w.tell_all(msgs).next_id == w.next_id,
        w.tell_all(msgs).phase == w.phase,
        w.tell_all(msgs).asked == w.asked,
        w.tell_all(msgs).trace == w.trace,
    decreases msgs.len(),
{
    if msgs.len() > 0 {
        lemma_tell_all_keeps_counter(w, msgs.drop_last(), n);
    }
}

/// The state of the bridge.
pub struct Wish {
    trace: OnceCell<bool>,
    phase: Phase,
    next_id: i64,
    outbox: Vec<String>,
    asked: Option<String>,
}

impl View for Wish {
    type V = WishView;

    closed spec fn view(&self) -> WishView {
        WishView {
            trace: flag_of(self.trace),
            phase: self.phase,
            next_id: self.next_id as int,
            outbox: self.outbox.deep_view(),
            asked: match self.asked {
                Some(q) => Some(q@),
                None => None,
            },
        }
    }
}

impl Wish {
    /// A bridge for which nothing was started yet.
    pub fn new() -> (wish: Wish)
        ensures
            wish@ == WishView::fresh(),
    {
        let wish = Wish {
            trace: flag_new(),
            phase: Phase::Idle,
            next_id: 0,
            outbox: Vec::new(),
            asked: None,
        };
        assert(wish.outbox.deep_view() =~= Seq::<Seq<char>>::empty());
        wish
    }

    pub fn phase(&self) -> (r: Phase)
        ensures
            r == self@.phase,
    {
        self.phase
    }

    pub fn is_running(&self) -> (r: bool)
        ensures
            r == self@.running(),
    {
        match self.phase {
            Phase::Running => true,
            _ => false,
        }
    }

    /// Whether the bridge can be started: none was started before, and it
    /// is idle. The caller launches the program only where this holds.
    pub fn can_start(&self) -> (r: bool)
        ensures
            r == self@.can_start(),
    {
        match self.phase {
            Phase::Idle => flag_get(&self.trace).is_none(),
            _ => false,
        }
    }
}

fn error(kind: TkErrorKind, message: String) -> (e: TkError)
    ensures
        e.kind == kind,
        e.message == message,
{
    TkError { kind, message }
}

/// Whether the exchanges with the interpreter are to be shown.
pub fn tracing(wish: &Wish) -> (r: bool)
    ensures
        r == (wish@.trace == Some(true)),
{
    match flag_get(&wish.trace) {
        Some(on) => on,
        None => false,
    }
}

/// Sends a message (a Tcl command) to wish: the command and a line
/// terminator join the queue. A bridge that does not run refuses.
pub fn tell_wish(wish: &mut Wish, msg: &str) -> (r: Result<(), TkError>)
    ensures
        final(wish)@ == old(wish)@.tell(msg@),
        r is Ok <==> old(wish)@.running(),
        r matches Err(e) ==> e.kind == TkErrorKind::Write && e.message@ == not_running_text(),
{
    match wish.phase {
        Phase::Running => {
            let ghost before = wish.outbox.deep_view();
            wish.outbox.push(String::from_str(msg));
            wish.outbox.push(String::from_str("\n"));
            assert(wish.outbox.deep_view() =~= before.push(msg@).push("\n"@));
            Ok(())
        },
        _ => Err(error(TkErrorKind::Write, String::from_str("Wish is not running"))),
    }
}

/// Sends a message (a Tcl command) to wish and expects a result: the
/// command joins the queue and its reply is awaited, to be handed to
/// [`read_reply`]. A bridge that does not run, or that awaits a reply
/// already, refuses.
pub fn ask_wish(wish: &mut Wish, msg: &str) -> (r: Result<(), TkError>)
    ensures
        final(wish)@ == old(wish)@.ask(msg@),
        r is Ok <==> old(wish)@.can_ask(),
        r matches Err(e) ==> e.kind == (if old(wish)@.running() {
            TkErrorKind::Protocol
        } else {
            TkErrorKind::Write
        }) && e.message@ == (if old(wish)@.running() {
            cannot_ask_text()
        } else {
            not_running_text()
        }),
{
    if wish.asked.is_some() && wish.is_running() {
        return Err(error(TkErrorKind::Protocol, String::from_str("Wish cannot take a query now")));
    }
    match tell_wish(wish, msg) {
        Ok(()) => {
            wish.asked = Some(String::from_str(msg));
            Ok(())
        },
        Err(e) => Err(e),
    }
}

/// Takes the reply to the query that [`ask_wish`] sent: `input` holds the
/// bytes that a single read of the interpreter's output gave, those and
/// no others, and is `None` where the read failed. The reply is the text
/// without the white space around it. Where a reply was awaited and none
/// can be taken, because the read failed, gave no byte or gave bytes that
/// are no text, the query fails and the bridge is closed.
pub fn read_reply(wish: &mut Wish, input: Option<&[u8]>) -> (r: Result<String, TkError>)
    ensures
        final(wish)@ == old(wish)@.reply(bytes_of(input)),
        r is Ok <==> reply_of(old(wish)@, bytes_of(input)) is Some,
        r matches Ok(text) ==> reply_of(old(wish)@, bytes_of(input)) == Some(text@),
        r matches Err(e) ==> e.kind == TkErrorKind::Protocol && e.message@ == (if old(
            wish,
        )@.asked is Some {
            no_reply_text()
        } else {
            not_asked_text()
        }),
{
    if wish.asked.is_none() {
        return Err(error(TkErrorKind::Protocol, String::from_str("No query awaits a reply")));
    }
    let text = match input {
        Some(bytes) => if bytes.len() > 0 {
            text_of_utf8(bytes)
        } else {
            None
        },
        None => None,
    };
    match text {
        Some(line) => {
            wish.asked = None;
            let chars = chars_of(line);
            Ok(string_of(trim_chars(chars.as_slice())))
        },
        None => {
            wish.phase = Phase::Closed;
            wish.asked = None;
            Err(error(TkErrorKind::Protocol, String::from_str("Eval-wish failed to get a result")))
        },
    }
}

/// One turn of the event loop: `input` is what a single read of the
/// interpreter's output gave, `None` where the read failed. The result is
/// the logical event that the line stands for, if it stands for one. The
/// exit line closes a running bridge: the caller is to kill the
/// subprocess where the bridge ran before the call and does not after it.
pub fn mainloop(wish: &mut Wish, input: Option<&[u8]>) -> (r: Option<String>)
    ensures
        final(wish)@ == old(wish)@.turn(bytes_of(input)),
        r is Some <==> logical_event(event_of(bytes_of(input))) is Some,
        r matches Some(id) ==> logical_event(event_of(bytes_of(input))) == Some(id@),
{
    let text = match input {
        Some(bytes) => text_of_utf8(bytes),
        None => None,
    };
    match text {
        Some(line) => {
            let event = decode_line(line);
            match event {
                DecodedEvent::Exit => {
                    kill_wish(wish);
                },
                _ => {},
            }
            event_id(event)
        },
        None => None,
    }
}

/// The writer could not deliver a chunk: the bridge is closed, and every
/// later command is refused.
pub fn writer_failed(wish: &mut Wish)
    ensures
        final(wish)@ == old(wish)@.closed(),
{
    wish.phase = Phase::Closed;
    wish.asked = None;
}

/// Creates a connection with the "wish" program: `launched` says whether
/// the program was launched.
pub fn start_wish(wish: &mut Wish, launched: bool) -> (r: Result<TkTopLevel, TkError>)
    ensures
        final(wish)@ == old(wish)@.start(launched),
        r is Ok <==> start_failure(old(wish)@, "wish"@, launched) is None,
        r matches Ok(top) ==> top.id@ == "."@,
        r matches Err(e) ==> e.kind == TkErrorKind::Startup && start_failure(
            old(wish)@,
            "wish"@,
            launched,
        ) == Some(e.message@),
{
    start_with(wish, "wish", launched)
}

/// Creates a connection with the given wish/tclkit program: `launched`
/// says whether the program was launched. The start fails where a bridge
/// was started before, where the program was not launched, and where the
/// bridge is not idle. A start that fails leaves the bridge as it was, so
/// that a later one can succeed; the caller launches the program only
/// where [`Wish::can_start`] holds.
pub fn start_with(wish: &mut Wish, program: &str, launched: bool) -> (r: Result<
    TkTopLevel,
    TkError,
>)
    ensures
        final(wish)@ == old(wish)@.start(launched),
        r is Ok <==> start_failure(old(wish)@, program@, launched) is None,
        r matches Ok(top) ==> top.id@ == "."@,
        r matches Err(e) ==> e.kind == TkErrorKind::Startup && start_failure(
            old(wish)@,
            program@,
            launched,
        ) == Some(e.message@),
{
    if flag_get(&wish.trace).is_some() {
        return Err(error(TkErrorKind::Startup, String::from_str("Failed to set trace option")));
    }
    match start_tk_connection(wish, program, launched) {
        Ok(top) => {
            let claimed = flag_set(&mut wish.trace, false);
            Ok(top)
        },
        Err(e) => Err(e),
    }
}

/// Creates a connection with the given wish/tclkit program, as
/// [`start_with`] does.
pub fn trace_with(wish: &mut Wish, program: &str, launched: bool) -> (r: Result<
    TkTopLevel,
    TkError,
>)
    ensures
        final(wish)@ == old(wish)@.start(launched),
        r is Ok <==> start_failure(old(wish)@, program@, launched) is None,
        r matches Ok(top) ==> top.id@ == "."@,
        r matches Err(e) ==> e.kind == TkErrorKind::Startup && start_failure(
            old(wish)@,
            program@,
            launched,
        ) == Some(e.message@),
{
    start_with(wish, program, launched)
}

/// Connects the program that was launched to an idle bridge: the bridge
/// runs, the commands that prepare the interpreter join the queue, and
/// the root container is returned.
pub fn start_tk_connection(wish: &mut Wish, program: &str, launched: bool) -> (r: Result<
    TkTopLevel,
    TkError,
>)
    ensures
        final(wish)@ == old(wish)@.connect(launched),
        r is Ok <==> connect_failure(old(wish)@, program@, launched) is None,
        r matches Ok(top) ==> top.id@ == "."@,
        r matches Err(e) ==> e.kind == TkErrorKind::Startup && connect_failure(
            old(wish)@,
            program@,
            launched,
        ) == Some(e.message@),
{
    if !launched {
        let mut message = String::from_str("Failed to start ");
        message.append(program);
        message.append(" process");
        return Err(error(TkErrorKind::Startup, message));
    }
    match wish.phase {
        Phase::Idle => {},
        _ => {
            let mut message = String::from_str("Do not start ");
            message.append(program);
            message.append(" twice");
            return Err(error(TkErrorKind::Startup, message));
        },
    }
    let ghost before = wish.outbox.deep_view();
    // load the plotchart package
    wish.outbox.push(String::from_str("package require Plotchart"));
    // set the close button to output the 'exit' line
    wish.outbox.push(
        String::from_str("wm protocol . WM_DELETE_WINDOW { puts stdout {exit} ; flush stdout } "),
    );
    // remove the 'tearoff' menu option
    wish.outbox.push(String::from_str("option add *tearOff 0"));
    // tcl function to help working with the font chooser
    wish.outbox.push(
        String::from_str(
            "proc font_choice {w font args} {\n    set res {font }\n    append res [font actual $font]\n    puts $res\n    flush stdout\n}",
        ),
    );
    // tcl function to help working with the scale widget
    wish.outbox.push(
        String::from_str(
            "proc scale_value {w value args} {\n    puts cb1f-$w-$value\n    flush stdout\n}",
        ),
    );
    assert(wish.outbox.deep_view() =~= before + init_commands());
    wish.phase = Phase::Running;
    Ok(TkTopLevel { id: String::from_str(".") })
}

/// Sends the commands of `msgs` to a running wish, in their order.
pub fn tell_all(wish: &mut Wish, msgs: &Vec<String>)
    requires
        old(wish)@.running(),
    ensures
        final(wish)@ == old(wish)@.tell_all(msgs.deep_view()),
        final(wish)@.running(),
{
    let ghost all = msgs.deep_view();
    let mut i: usize = 0;
    while i < msgs.len()
        invariant
            i <= msgs.len(),
            all == msgs.deep_view(),
            wish@.running(),
            wish@ == old(wish)@.tell_all(all.take(i as int)),
        decreases msgs.len() - i,
    {
        let r = tell_wish(wish, msgs[i].as_str());
        assert(all.take(i + 1).drop_last() == all.take(i as int));
        assert(all.take(i + 1).last() == msgs[i as int]@);
        i += 1;
    }
    assert(all.take(msgs.len() as int) == all);
}

/// Hands the queue to the writer: the chunks in the order in which they
/// were queued, each to be written followed by a line feed.
pub fn take_outgoing(wish: &mut Wish) -> (chunks: Vec<String>)
    ensures
        chunks.deep_view() == old(wish)@.outbox,
        final(wish)@ == old(wish)@.drained(),
{
    let mut chunks: Vec<String> = Vec::new();
    std::mem::swap(&mut chunks, &mut wish.outbox);
    assert(wish.outbox.deep_view() =~= Seq::<Seq<char>>::empty());
    chunks
}

/// Kills the wish process: a running bridge is closed, and the caller is
/// to kill the subprocess if the result is `true`. Any other bridge stays
/// as it is.
pub fn kill_wish(wish: &mut Wish) -> (kill: bool)
    ensures
        kill == old(wish)@.running(),
        final(wish)@ == (if old(wish)@.running() {
            old(wish)@.closed()
        } else {
            old(wish)@
        }),
{
    match wish.phase {
        Phase::Running => {
            wish.phase = Phase::Closed;
            wish.asked = None;
            true
        },
        _ => false,
    }
}

/// Used to cleanly end the wish process and the current program: the
/// bridge is closed as by [`kill_wish`], and the caller is to leave the
/// program with status 0 once it has killed the subprocess, which it is
/// to do if the result is `true`.
pub fn end_wish(wish: &mut Wish) -> (kill: bool)
    ensures
        kill == old(wish)@.running(),
        final(wish)@ == (if old(wish)@.running() {
            old(wish)@.closed()
        } else {
            old(wish)@
        }),
{
    kill_wish(wish)
}

/// The number that the last identifier was made of.
pub fn current_id(wish: &Wish) -> (r: i64)
    ensures
        r == wish@.next_id,
{
    wish.next_id
}

/// Returns a new id string which can be used to name a new widget
/// instance below `parent`.
pub fn next_wid(wish: &mut Wish, parent: &str) -> (r: String)
    requires
        old(wish)@.next_id < i64::MAX,
    ensures
        final(wish)@ == old(wish)@.bumped(),
        r@ == wid_text(parent@, final(wish)@.next_id),
{
    wish.next_id = wish.next_id + 1;
    let mut r = if same_text(parent, ".") {
        String::new()
    } else {
        String::from_str(parent)
    };
    r.append(".r");
    push_signed_decimal(&mut r, wish.next_id);
    assert(r@ =~= wid_text(parent@, wish@.next_id));
    r
}

/// Returns a new variable name.
pub fn next_var(wish: &mut Wish) -> (r: String)
    requires
        old(wish)@.next_id < i64::MAX,
    ensures
        final(wish)@ == old(wish)@.bumped(),
        r@ == var_text(final(wish)@.next_id),
{
    wish.next_id = wish.next_id + 1;
    let mut r = String::from_str("::var");
    push_signed_decimal(&mut r, wish.next_id);
    r
}

/// The chunks that telling the commands `msgs` queues: each command and
/// its line terminator, in the order of the commands.
pub open spec fn chunks_of(msgs: Seq<Seq<char>>) -> Seq<Seq<char>>
    decreases msgs.len(),
{
    if msgs.len() == 0 {
        seq![]
    } else {
        chunks_of(msgs.drop_last()).push(msgs.last()).push("\n"@)
    }
}

/// The command channel is first in, first out: what a running bridge is
/// told joins the queue behind what waits there, in the order of the
/// telling, and the writer is handed the queue in that order.
pub proof fn lemma_told_in_order(w: WishView, msgs: Seq<Seq<char>>)
    requires
        w.running(),
    ensures
        w.tell_all(msgs).outbox == w.outbox + chunks_of(msgs),
        w.tell_all(msgs).running(),
    decreases msgs.len(),
{
    if msgs.len() == 0 {
        assert(w.outbox + chunks_of(msgs) == w.outbox);
    } else {
        lemma_told_in_order(w, msgs.drop_last());
        let v = w.tell_all(msgs.drop_last());
        assert(v.tell(msgs.last()).outbox == w.outbox + chunks_of(msgs));
    }
}

/// The bridge after the queries of `queries` were asked one after the
/// other, the reply to each read from the input of the same index before
/// the next is asked; and the replies, in the order in which they came.
pub open spec fn converse(w: WishView, queries: Seq<Seq<char>>, inputs: Seq<Option<Seq<u8>>>) -> (
    WishView,
    Seq<Option<Seq<char>>>,
)
    decreases queries.len(),
{
    if queries.len() == 0 {
        (w, seq![])
    } else {
        let (v, replies) = converse(w, queries.drop_last(), inputs.drop_last());
        let asked = v.ask(queries.last());
        (asked.reply(inputs.last()), replies.push(reply_of(asked, inputs.last())))
    }
}

/// Replies come in the order of their queries: where a reply can be taken
/// from each read, the reply to the query of index `i` is the text of the read of
/// index `i`, the queries stand in the queue in the order in which they
/// were asked, and the bridge can be asked again.
pub proof fn lemma_replies_in_order(
    w: WishView,
    queries: Seq<Seq<char>>,
    inputs: Seq<Option<Seq<u8>>>,
)
    requires
        w.can_ask(),
        queries.len() == inputs.len(),
        forall|i: int| 0 <= i < inputs.len() ==> readable(#[trigger] inputs[i]),
    ensures
        converse(w, queries, inputs).0.can_ask(),
        converse(w, queries, inputs).0.outbox == w.outbox + chunks_of(queries),
        converse(w, queries, inputs).1.len() == queries.len(),
        forall|i: int|
            0 <= i < queries.len() ==> #[trigger] converse(w, queries, inputs).1[i] == Some(
                trim(line_of(inputs[i])->0),
            ),
    decreases queries.len(),
{
    if queries.len() == 0 {
        assert(w.outbox + chunks_of(queries) == w.outbox);
    } else {
        let head = queries.drop_last();
        let before = inputs.drop_last();
        assert forall|i: int| 0 <= i < before.len() implies readable(#[trigger] before[i]) by {
            assert(before[i] == inputs[i]);
        }
        assert(readable(inputs[inputs.len() - 1]));
        lemma_replies_in_order(w, head, before);
        let (v, replies) = converse(w, head, before);
        let asked = v.ask(queries.last());
        assert(asked.outbox == w.outbox + chunks_of(queries));
        assert forall|i: int| 0 <= i < queries.len() implies #[trigger] converse(
            w,
            queries,
            inputs,
        ).1[i] == Some(trim(line_of(inputs[i])->0)) by {
            if i < head.len() {
                assert(converse(w, queries, inputs).1[i] == replies[i]);
                assert(before[i] == inputs[i]);
            }
        }
    }
}

/// Identifiers never repeat: the identifiers and variable names that are
/// made of different numbers differ, whatever their parents. The counter
/// of a bridge goes up by one with each of them, and a bridge is borrowed
/// by one caller at a time, so no two of one bridge are made of the same
/// number.
pub proof fn lemma_ids_never_repeat(parent_a: Seq<char>, parent_b: Seq<char>, a: int, b: int)
    requires
        a != b,
    ensures
        wid_text(parent_a, a) != wid_text(parent_b, b),
        wid_text(parent_a, a) != var_text(b),
        var_text(a) != var_text(b),
{
    reveal_strlit(".r");
    reveal_strlit("::var");
    let pa = if parent_a == "."@ {
        ".r"@
    } else {
        parent_a + ".r"@
    };
    let pb = if parent_b == "."@ {
        ".r"@
    } else {
        parent_b + ".r"@
    };
    assert(pa.last() == 'r');
    assert(pb.last() == 'r');
    assert("::var"@.last() == 'r');
    lemma_numbered_apart(pa, pb, a, b);
    lemma_numbered_apart(pa, "::var"@, a, b);
    lemma_numbered_apart("::var"@, "::var"@, a, b);
}

/// A request for an identifier: of a widget below a parent, or of a
/// variable.
pub enum IdRequest {
    Widget(Seq<char>),
    Variable,
}

/// The identifier that answers `request` where the counter has come to
/// `n`.
pub open spec fn id_text(request: IdRequest, n: int) -> Seq<char> {
    match request {
        IdRequest::Widget(parent) => wid_text(parent, n),
        IdRequest::Variable => var_text(n),
    }
}

/// The bridge after the requests of `requests` were answered one after
/// the other, as `next_wid` and `next_var` answer them; and the
/// identifiers, in the order of the requests.
pub open spec fn issue_all(w: WishView, requests: Seq<IdRequest>) -> (WishView, Seq<Seq<char>>)
    decreases requests.len(),
{
    if requests.len() == 0 {
        (w, seq![])
    } else {
        let (v, texts) = issue_all(w, requests.drop_last());
        (v.bumped(), texts.push(id_text(requests.last(), v.bumped().next_id)))
    }
}

/// Any number of requests get identifiers that differ from one another:
/// the request of index `i` gets the identifier made of the number
/// `n + 1 + i`, where `n` is the counter before the first; no number is
/// left out or used twice; and the counter has gone up by the number of
/// requests. The requests come one after the other: a bridge is borrowed
/// by one caller at a time.
pub proof fn lemma_issued_ids_differ(w: WishView, requests: Seq<IdRequest>)
    ensures
        issue_all(w, requests).0 == (WishView { next_id: w.next_id + requests.len(), ..w }),
        issue_all(w, requests).1.len() == requests.len(),
        forall|i: int|
            0 <= i < requests.len() ==> #[trigger] issue_all(w, requests).1[i] == id_text(
                requests[i],
                w.next_id + 1 + i,
            ),
        forall|i: int, j: int|
            0 <= i < requests.len() && 0 <= j < requests.len() && i != j ==> issue_all(
                w,
                requests,
            ).1[i] != issue_all(w, requests).1[j],
    decreases requests.len(),
{
    if requests.len() > 0 {
        let head = requests.drop_last();
        lemma_issued_ids_differ(w, head);
        let all = issue_all(w, requests).1;
        assert forall|i: int| 0 <= i < requests.len() implies #[trigger] all[i] == id_text(
            requests[i],
            w.next_id + 1 + i,
        ) by {
            if i < head.len() {
                assert(all[i] == issue_all(w, head).1[i]);
                assert(head[i] == requests[i]);
            }
        }
        assert forall|i: int, j: int|
            0 <= i < requests.len() && 0 <= j < requests.len() && i != j implies all[i]
            != all[j] by {
            lemma_id_texts_differ(requests[i], requests[j], w.next_id + 1 + i, w.next_id + 1 + j);
        }
    }
}

/// The identifiers that answer two requests at different numbers differ.
pub proof fn lemma_id_texts_differ(first: IdRequest, second: IdRequest, a: int, b: int)
    requires
        a != b,
    ensures
        id_text(first, a) != id_text(second, b),
{
    match (first, second) {
        (IdRequest::Widget(p), IdRequest::Widget(q)) => lemma_ids_never_repeat(p, q, a, b),
        (IdRequest::Widget(p), IdRequest::Variable) => lemma_ids_never_repeat(p, p, a, b),
        (IdRequest::Variable, IdRequest::Widget(q)) => lemma_ids_never_repeat(q, q, b, a),
        (IdRequest::Variable, IdRequest::Variable) => lemma_ids_never_repeat(""@, ""@, a, b),
    }
}

/// A start that fails because the program was not launched leaves the
/// bridge as it was, and a later start of a program that was launched
/// succeeds.
pub proof fn lemma_failed_launch_claims_nothing(w: WishView, program: Seq<char>)
    requires
        w.can_start(),
    ensures
        start_failure(w, program, false) == Some(launch_failed_text(program)),
        w.start(false) == w,
        start_failure(w.start(false), program, true) is None,
        w.start(false).start(true).running(),
{
}

/// A query whose read gives no byte has no reply: it fails, and the
/// bridge is closed.
pub proof fn lemma_empty_read_is_no_reply(w: WishView)
    requires
        w.asked is Some,
    ensures
        reply_of(w, Some(Seq::<u8>::empty())) is None,
        reply_of(w, None) is None,
        !w.reply(Some(Seq::<u8>::empty())).running(),
{
}

/// A closed bridge takes no command: it does not run, and telling or
/// asking leaves it as it is, so that nothing waits for a subprocess that
/// is gone. The exit line closes the bridge.
pub proof fn lemma_closed_takes_no_command(
    w: WishView,
    msg: Seq<char>,
    msgs: Seq<Seq<char>>,
    input: Option<Seq<u8>>,
)
    ensures
        !w.closed().running(),
        w.closed().tell(msg) == w.closed(),
        w.closed().ask(msg) == w.closed(),
        w.closed().tell_all(msgs) == w.closed(),
        event_of(input) == EventView::Exit ==> !w.turn(input).running(),
    decreases msgs.len(),
{
    if msgs.len() > 0 {
        lemma_closed_takes_no_command(w, msg, msgs.drop_last(), input);
    }
}

} // verus!
