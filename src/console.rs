//! Routing of a relaunched instance's console output: every line goes to the
//! session log, and to the live view only while that instance is selected.

use vstd::prelude::*;
use crate::classify::args_view;
use crate::text::{chars_of, string_from_chars};

verus! {

/// The register value that selects no instance.
pub const NO_SELECTION: u32 = 0;

/// Which process identifier currently receives live output.
#[derive(Clone, Copy, Debug)]
pub struct SelectionRegister {
    selected: u32,
}

impl View for SelectionRegister {
    type V = u32;

    closed spec fn view(&self) -> u32 {
        self.selected
    }
}

impl SelectionRegister {
    /// A register that selects no instance.
    pub fn new() -> (r: SelectionRegister)
        ensures
            r@ == NO_SELECTION,
    {
        SelectionRegister { selected: NO_SELECTION }
    }

    /// Points the live view at `pid`; the last selection wins.
    pub fn select(&mut self, pid: u32)
        ensures
            final(self)@ == pid,
    {
        self.selected = pid;
    }

    /// The identifier currently selected.
    pub fn current(&self) -> (r: u32)
        ensures
            r == self@,
    {
        self.selected
    }
}

/// One line handed to the live view, with the identifier of its process.
#[derive(Clone, Debug)]
pub struct ConsolePayload {
    pub line: String,
    pub pid: u32,
}

/// What becomes of one output line.
#[derive(Clone, Debug)]
pub struct LineRoute {
    /// The text appended to the session log.
    pub record: String,
    /// The payload for the live view, when the line's process is selected.
    pub forward: Option<ConsolePayload>,
}

/// The log text of one line: the line and its terminator.
pub open spec fn log_record(line: Seq<char>) -> Seq<char> {
    line.push('\n')
}

/// The log text of a sequence of lines.
pub open spec fn log_text(lines: Seq<Seq<char>>) -> Seq<char>
    decreases lines.len(),
{
    if lines.len() == 0 {
        Seq::empty()
    } else {
        log_text(lines.drop_last()) + log_record(lines.last())
    }
}

/// The lines that reach the live view when line `i` of process `pid` is
/// produced while the register holds `sel[i]`.
pub open spec fn forwarded(pid: u32, sel: Seq<u32>, lines: Seq<Seq<char>>) -> Seq<Seq<char>>
    decreases lines.len(),
{
    if lines.len() == 0 {
        Seq::empty()
    } else {
        let sub = forwarded(pid, sel, lines.drop_last());
        if sel[lines.len() - 1] == pid {
            sub.push(lines.last())
        } else {
            sub
        }
    }
}

/// No line holds a terminator.
pub open spec fn no_terminators(lines: Seq<Seq<char>>) -> bool {
    forall|i: int, j: int| 0 <= i < lines.len() && 0 <= j < lines[i].len() ==> #[trigger] lines[i][j] != '\n'
}

/// Reading text line by line: the finished lines and the unfinished one.
pub open spec fn read_state(text: Seq<char>) -> (Seq<Seq<char>>, Seq<char>)
    decreases text.len(),
{
    if text.len() == 0 {
        (Seq::empty(), Seq::empty())
    } else {
        let (done, cur) = read_state(text.drop_last());
        if text.last() == '\n' {
            (done.push(cur), Seq::empty())
        } else {
            (done, cur.push(text.last()))
        }
    }
}

/// The lines of a text: each terminator ends one, and a last unterminated,
/// non-empty part is a line too.
pub open spec fn lines_of(text: Seq<char>) -> Seq<Seq<char>> {
    let (done, cur) = read_state(text);
    if cur.len() == 0 {
        done
    } else {
        done.push(cur)
    }
}

/// Whether a line of process `pid` goes to the live view while `selected` is chosen.
pub fn should_forward(pid: u32, selected: u32) -> (r: bool)
    ensures
        r == (pid == selected),
{
    pid == selected
}

/// The log text of one line.
pub fn log_record_of(line: &str) -> (r: String)
    ensures
        r@ == log_record(line@),
{
    let mut r = String::from_str(line);
    r.append("\n");
    proof {
        reveal_strlit("\n");
        assert(r@ =~= log_record(line@));
    }
    r
}

/// Routes one line of process `pid` while the register holds `selected`:
/// it is always logged, and forwarded only when `pid` is selected.
pub fn route_line(pid: u32, selected: u32, line: String) -> (r: LineRoute)
    ensures
        r.record@ == log_record(line@),
        r.forward is Some <==> pid == selected,
        r.forward matches Some(p) ==> p.pid == pid && p.line@ == line@,
{
    let record = log_record_of(line.as_str());
    let forward = if should_forward(pid, selected) {
        Some(ConsolePayload { line, pid })
    } else {
        None
    };
    LineRoute { record, forward }
}

/// What a whole output stream of one process produced.
#[derive(Clone, Debug)]
pub struct Multiplexed {
    /// The full text of the session log.
    pub log: String,
    /// The payloads handed to the live view, in order.
    pub emitted: Vec<ConsolePayload>,
}

/// The lines of a sequence of payloads.
pub open spec fn payload_lines(p: Seq<ConsolePayload>) -> Seq<Seq<char>> {
    p.map_values(|c: ConsolePayload| c.line@)
}

/// Routes every line of process `pid`'s output; line `i` is produced while
/// the register holds `selections[i]`.
pub fn multiplex(pid: u32, lines: &Vec<String>, selections: &Vec<u32>) -> (r: Multiplexed)
    requires
        lines.len() == selections.len(),
    ensures
        r.log@ == log_text(args_view(lines@)),
        payload_lines(r.emitted@) == forwarded(pid, selections@, args_view(lines@)),
        forall|j: int| 0 <= j < r.emitted.len() ==> (#[trigger] r.emitted@[j]).pid == pid,
{
    let ghost all = args_view(lines@);
    let mut log = String::new();
    let mut emitted: Vec<ConsolePayload> = Vec::new();
    let mut i: usize = 0;
    while i < lines.len()
        invariant
            lines.len() == selections.len(),
            i <= lines.len(),
            all == args_view(lines@),
            log@ == log_text(all.take(i as int)),
            payload_lines(emitted@) == forwarded(pid, selections@, all.take(i as int)),
            forall|j: int| 0 <= j < emitted.len() ==> (#[trigger] emitted@[j]).pid == pid,
        decreases lines.len() - i,
    {
        let route = route_line(pid, selections[i], lines[i].clone());
        let ghost old_emitted = emitted@;
        log.append(route.record.as_str());
        match route.forward {
            Some(p) => {
                emitted.push(p);
            },
            None => {},
        }
        proof {
            let next = all.take(i + 1);
            assert(next.drop_last() =~= all.take(i as int));
            assert(next.last() == lines@[i as int]@);
            assert(payload_lines(emitted@) =~= forwarded(pid, selections@, next)) by {
                if selections@[i as int] == pid {
                    assert(emitted@ == old_emitted.push(emitted@.last()));
                    assert(payload_lines(emitted@) =~= payload_lines(old_emitted).push(
                        lines@[i as int]@,
                    ));
                }
            }
        }
        i += 1;
    }
    assert(all.take(lines.len() as int) =~= all);
    Multiplexed { log, emitted }
}

/// The lines of a log text, read back: each terminator ends a line, and a
/// last unterminated, non-empty part is a line too.
pub fn read_log_lines(text: &str) -> (r: Vec<String>)
    ensures
        args_view(r@) == lines_of(text@),
{
    let cs = chars_of(text);
    let mut done: Vec<String> = Vec::new();
    let mut cur: Vec<char> = Vec::new();
    let mut i: usize = 0;
    while i < cs.len()
        invariant
            i <= cs.len(),
            cs@ == text@,
            (args_view(done@), cur@) == read_state(text@.take(i as int)),
        decreases cs.len() - i,
    {
        proof {
            assert(text@.take(i + 1).drop_last() =~= text@.take(i as int));
        }
        let c = cs[i];
        if c == '\n' {
            let line = string_from_chars(&cur);
            done.push(line);
            cur = Vec::new();
            proof {
                assert(args_view(done@) =~= read_state(text@.take(i + 1)).0);
                assert(cur@ =~= read_state(text@.take(i + 1)).1);
            }
        } else {
            cur.push(c);
        }
        i += 1;
    }
    assert(text@.take(cs.len() as int) =~= text@);
    if cur.len() > 0 {
        let line = string_from_chars(&cur);
        done.push(line);
        assert(args_view(done@) =~= lines_of(text@));
    }
    done
}

proof fn lemma_read_unterminated(t: Seq<char>, l: Seq<char>)
    requires
        read_state(t).1.len() == 0,
        forall|j: int| 0 <= j < l.len() ==> l[j] != '\n',
    ensures
        read_state(t + l) == (read_state(t).0, l),
    decreases l.len(),
{
    if l.len() == 0 {
        assert(t + l =~= t);
        assert(l =~= Seq::<char>::empty());
    } else {
        lemma_read_unterminated(t, l.drop_last());
        assert((t + l).drop_last() =~= t + l.drop_last());
        assert(l.drop_last().push(l.last()) =~= l);
    }
}

/// Reading back the log text of lines that hold no terminator gives the
/// same lines, in the same order.
pub proof fn lemma_log_round_trip(lines: Seq<Seq<char>>)
    requires
        no_terminators(lines),
    ensures
        read_state(log_text(lines)) == (lines, Seq::<char>::empty()),
        lines_of(log_text(lines)) == lines,
    decreases lines.len(),
{
    if lines.len() == 0 {
        assert(lines =~= Seq::<Seq<char>>::empty());
    } else {
        let init = lines.drop_last();
        let l = lines.last();
        assert(no_terminators(init)) by {
            assert forall|i: int, j: int| 0 <= i < init.len() && 0 <= j < init[i].len() implies #[trigger] init[i][j]
                != '\n' by {
                assert(init[i] == lines[i]);
            }
        }
        lemma_log_round_trip(init);
        let t = log_text(init);
        assert forall|j: int| 0 <= j < l.len() implies l[j] != '\n' by {
            assert(l == lines[lines.len() - 1]);
        }
        lemma_read_unterminated(t, l);
        let whole = log_text(lines);
        assert(whole == t + l.push('\n'));
        assert(whole.drop_last() =~= t + l);
        assert(init.push(l) =~= lines);
    }
}

/// Lines produced while another process is selected never reach the live
/// view, and every one of them is still in the log.
pub proof fn lemma_unselected_lines_only_logged(
    pid: u32,
    sel: Seq<u32>,
    lines: Seq<Seq<char>>,
)
    requires
        sel.len() == lines.len(),
        forall|i: int| 0 <= i < sel.len() ==> sel[i] != pid,
        no_terminators(lines),
    ensures
        forwarded(pid, sel, lines).len() == 0,
        lines_of(log_text(lines)) == lines,
{
    lemma_log_round_trip(lines);
    lemma_forwarded_none(pid, sel, lines);
}

proof fn lemma_forwarded_none(pid: u32, sel: Seq<u32>, lines: Seq<Seq<char>>)
    requires
        sel.len() >= lines.len(),
        forall|i: int| 0 <= i < lines.len() ==> sel[i] != pid,
    ensures
        forwarded(pid, sel, lines).len() == 0,
    decreases lines.len(),
{
    if lines.len() > 0 {
        lemma_forwarded_none(pid, sel, lines.drop_last());
    }
}

proof fn lemma_forwarded_all_from(pid: u32, sel: Seq<u32>, lines: Seq<Seq<char>>, k: int)
    requires
        sel.len() >= lines.len(),
        0 <= k <= lines.len(),
        forall|i: int| 0 <= i < k ==> sel[i] != pid,
        forall|i: int| k <= i < lines.len() ==> sel[i] == pid,
    ensures
        forwarded(pid, sel, lines) == lines.subrange(k, lines.len() as int),
    decreases lines.len(),
{
    if lines.len() == k {
        lemma_forwarded_none(pid, sel, lines);
        assert(lines.subrange(k, k) =~= Seq::<Seq<char>>::empty());
    } else {
        lemma_forwarded_all_from(pid, sel, lines.drop_last(), k);
        assert(lines.subrange(k, lines.len() as int) =~= lines.drop_last().subrange(
            k,
            lines.len() - 1,
        ).push(lines.last()));
    }
}

/// When the selection moves from `x` to `y` before line `k`, the lines of
/// `y` from `k` on reach the live view and none from before `k` does.
pub proof fn lemma_switch_selection(
    x: u32,
    y: u32,
    k: int,
    sel: Seq<u32>,
    lines: Seq<Seq<char>>,
)
    requires
        x != y,
        sel.len() == lines.len(),
        0 <= k <= lines.len(),
        forall|i: int| 0 <= i < k ==> sel[i] == x,
        forall|i: int| k <= i < lines.len() ==> sel[i] == y,
    ensures
        forwarded(y, sel, lines) == lines.subrange(k, lines.len() as int),
{
    lemma_forwarded_all_from(y, sel, lines, k);
}

} // verus!
