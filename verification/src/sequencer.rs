//! The probe sequencer: a fixed schedule of filesystem and engine
//! operations that provokes the unlink-while-open condition, together with
//! the rules for what each outcome means — which failures abort the run,
//! which are recorded as observations, and what each printed line says.
//!
//! The sequencer decides; the surrounding binary performs. It asks for the
//! current operation, performs it against the real filesystem and engine,
//! and hands the outcome back as an [`Event`]. The sequencer also keeps a
//! model of the world: whether the handle is open and which of the three
//! files may still be present.

use vstd::prelude::*;
use vstd::string::StringExecFns;
use crate::text::dec_int;
use crate::text::i64_to_string;

verus! {

/// The three files the probe works with: the primary database file and the
/// write-ahead-log and shared-memory sidecars the engine creates in WAL mode.
#[derive(Clone, Copy, PartialEq, Eq, Structural, Debug)]
pub enum FileKind {
    Primary,
    Wal,
    Shm,
}

/// The path of each file, fixed for the whole run.
pub open spec fn spec_path(k: FileKind) -> Seq<char> {
    match k {
        FileKind::Primary => "test.db"@,
        FileKind::Wal => "test.db-wal"@,
        FileKind::Shm => "test.db-shm"@,
    }
}

/// The path the driver must use for each file.
pub fn file_path(k: FileKind) -> (p: &'static str)
    ensures
        p@ == spec_path(k),
{
    match k {
        FileKind::Primary => "test.db",
        FileKind::Wal => "test.db-wal",
        FileKind::Shm => "test.db-shm",
    }
}

/// One operation the driver must perform against the filesystem or the
/// engine.
#[derive(Clone, Copy, PartialEq, Eq, Structural, Debug)]
pub enum Op {
    /// Best-effort removal of a leftover file before the run starts.
    CleanupRemove(FileKind),
    /// Open (or create) the primary database file.
    Open,
    /// Switch the journal mode to write-ahead logging.
    EnableWal,
    /// Create the experiment table.
    CreateSchema,
    /// Insert the one seed row.
    InsertSeed,
    /// Check whether a file currently exists.
    CheckExists(FileKind),
    /// Remove the primary file's directory entry while the handle stays
    /// open: the fault-injection point.
    Unlink,
    /// Wait briefly so the engine can interact with the missing file.
    Pause,
    /// Attempt an insert through the still-open handle.
    WriteAfterUnlink,
    /// Issue a syntactically invalid statement, to show the diagnostic
    /// channel is still attached.
    InvalidStatement,
    /// Read the row count of the experiment table.
    ReadCount,
    /// Attempt to create a second table.
    CreateSecondTable,
    /// Close the handle, releasing the underlying file.
    Close,
    /// Best-effort removal of a sidecar file at the end.
    FinalRemove(FileKind),
}

/// The outcome the driver reports for one operation. For the removal
/// operations, `Completed` means the file is confirmed absent: it was
/// removed, or there was nothing to remove.
pub enum Event {
    Completed,
    Failed(String),
    Present(bool),
    Count(i64),
}

/// Which outcome shapes fit which operation.
pub open spec fn event_fits(op: Op, ev: Event) -> bool {
    match op {
        Op::CheckExists(_) => ev is Present,
        Op::Pause => ev is Completed,
        Op::Close => ev is Completed,
        Op::ReadCount => ev is Count || ev is Failed,
        _ => ev is Completed || ev is Failed,
    }
}

/// How many operations one run performs.
pub const STEP_COUNT: usize = 19;

/// The fixed schedule, in the order the probe performs it.
pub open spec fn spec_op_at(i: int) -> Op {
    if i == 0 {
        Op::CleanupRemove(FileKind::Primary)
    } else if i == 1 {
        Op::CleanupRemove(FileKind::Wal)
    } else if i == 2 {
        Op::CleanupRemove(FileKind::Shm)
    } else if i == 3 {
        Op::Open
    } else if i == 4 {
        Op::EnableWal
    } else if i == 5 {
        Op::CreateSchema
    } else if i == 6 {
        Op::InsertSeed
    } else if i == 7 {
        Op::CheckExists(FileKind::Primary)
    } else if i == 8 {
        Op::CheckExists(FileKind::Wal)
    } else if i == 9 {
        Op::CheckExists(FileKind::Shm)
    } else if i == 10 {
        Op::Unlink
    } else if i == 11 {
        Op::Pause
    } else if i == 12 {
        Op::WriteAfterUnlink
    } else if i == 13 {
        Op::InvalidStatement
    } else if i == 14 {
        Op::ReadCount
    } else if i == 15 {
        Op::CreateSecondTable
    } else if i == 16 {
        Op::Close
    } else if i == 17 {
        Op::FinalRemove(FileKind::Wal)
    } else {
        Op::FinalRemove(FileKind::Shm)
    }
}

/// The setup steps: without an open, WAL-mode, seeded database the
/// experiment has no baseline, so a failure on one of these aborts the run.
pub open spec fn spec_fatal_at(i: int) -> bool {
    3 <= i <= 6
}

/// The numbered header printed before a step, where the step starts a phase.
pub open spec fn spec_header_at(i: int) -> Option<Seq<char>> {
    if i == 3 {
        Some("1. Creating database and opening connection..."@)
    } else if i == 4 {
        Some("2. Enabling WAL mode..."@)
    } else if i == 5 {
        Some("3. Creating table and inserting data..."@)
    } else if i == 7 {
        Some("4. Verifying files exist..."@)
    } else if i == 10 {
        Some("5. UNLINKING DATABASE FILE..."@)
    } else if i == 12 {
        Some("6. Attempting write after unlink..."@)
    } else if i == 13 {
        Some("7. Demonstrating logs are still connected..."@)
    } else if i == 14 {
        Some("8. Attempting read after unlink..."@)
    } else if i == 15 {
        Some("9. Creating another table after unlink..."@)
    } else if i == 16 {
        Some("10. Closing connection..."@)
    } else if i == 17 {
        Some("11. Cleaning up remaining files..."@)
    } else {
        None
    }
}

/// The probe's state: how far the schedule has run, whether a setup failure
/// aborted it, and its model of the world. A presence flag is `true` when
/// the file may be present and `false` when it is known absent.
pub struct Probe {
    pub step: usize,
    pub aborted: bool,
    pub handle_open: bool,
    pub primary_present: bool,
    pub wal_present: bool,
    pub shm_present: bool,
}

/// The state with one file marked known absent.
pub open spec fn spec_set_absent(p: Probe, k: FileKind) -> Probe {
    match k {
        FileKind::Primary => Probe { primary_present: false, ..p },
        FileKind::Wal => Probe { wal_present: false, ..p },
        FileKind::Shm => Probe { shm_present: false, ..p },
    }
}

/// The probe's state after one step with the given outcome.
pub open spec fn spec_next(p: Probe, ev: Event) -> Probe {
    let i = p.step as int;
    let q = Probe { step: (p.step + 1) as usize, ..p };
    match spec_op_at(i) {
        Op::CleanupRemove(k) => if ev is Completed {
            spec_set_absent(q, k)
        } else {
            q
        },
        Op::Open => if ev is Failed {
            Probe { aborted: true, ..q }
        } else {
            Probe { handle_open: true, primary_present: true, ..q }
        },
        Op::EnableWal => if ev is Failed {
            Probe { aborted: true, ..q }
        } else {
            q
        },
        Op::CreateSchema => if ev is Failed {
            Probe { aborted: true, ..q }
        } else {
            Probe { wal_present: true, shm_present: true, ..q }
        },
        Op::InsertSeed => if ev is Failed {
            Probe { aborted: true, ..q }
        } else {
            q
        },
        Op::CheckExists(_) => q,
        Op::Unlink => if ev is Completed {
            Probe { primary_present: false, ..q }
        } else {
            q
        },
        Op::Pause => q,
        Op::WriteAfterUnlink => q,
        Op::InvalidStatement => q,
        Op::ReadCount => q,
        Op::CreateSecondTable => q,
        Op::Close => Probe { handle_open: false, ..q },
        Op::FinalRemove(k) => if ev is Completed {
            spec_set_absent(q, k)
        } else {
            q
        },
    }
}

/// The transcript lines one step produces with the given outcome.
pub open spec fn spec_lines_at(i: int, ev: Event) -> Seq<Seq<char>> {
    match spec_op_at(i) {
        Op::CleanupRemove(_) => Seq::empty(),
        Op::Open => Seq::empty(),
        Op::EnableWal => Seq::empty(),
        Op::CreateSchema => Seq::empty(),
        Op::InsertSeed => Seq::empty(),
        Op::CheckExists(k) => match ev {
            Event::Present(b) => if b {
                seq!["  "@ + spec_path(k) + " exists"@]
            } else {
                seq!["  "@ + spec_path(k) + " missing"@]
            },
            _ => Seq::empty(),
        },
        Op::Unlink => match ev {
            Event::Completed => seq!["  test.db has been unlinked!"@],
            Event::Failed(m) => seq!["  Unlink failed: "@ + m@],
            _ => Seq::empty(),
        },
        Op::Pause => Seq::empty(),
        Op::WriteAfterUnlink => match ev {
            Event::Completed => seq!["  Write succeeded after unlink"@],
            Event::Failed(m) => seq!["  Write failed: "@ + m@],
            _ => Seq::empty(),
        },
        Op::InvalidStatement => match ev {
            Event::Completed => seq!["Unexpected success"@],
            Event::Failed(m) => seq!["Expected error: "@ + m@],
            _ => Seq::empty(),
        },
        Op::ReadCount => match ev {
            Event::Count(n) => seq!["  Read succeeded, count: "@ + dec_int(n as int)],
            Event::Failed(m) => seq!["  Read failed: "@ + m@],
            _ => Seq::empty(),
        },
        Op::CreateSecondTable => match ev {
            Event::Completed => seq!["  Table creation succeeded after unlink"@],
            Event::Failed(m) => seq!["  Table creation failed: "@ + m@],
            _ => Seq::empty(),
        },
        Op::Close => Seq::empty(),
        Op::FinalRemove(_) => Seq::empty(),
    }
}

/// Whether the run is over: all steps done, or aborted by a setup failure.
pub open spec fn spec_finished(p: Probe) -> bool {
    p.aborted || p.step >= STEP_COUNT
}

/// The operation the driver must perform next, if the run is not over.
pub open spec fn spec_current(p: Probe) -> Option<Op> {
    if spec_finished(p) {
        None
    } else {
        Some(spec_op_at(p.step as int))
    }
}

/// What one step reports back to the driver: the transcript lines to print,
/// and whether the outcome aborts the run.
pub struct StepReport {
    pub lines: Vec<String>,
    pub fatal: bool,
}

fn no_lines() -> (v: Vec<String>)
    ensures
        v.deep_view() == Seq::<Seq<char>>::empty(),
{
    let v: Vec<String> = Vec::new();
    proof {
        assert(v.deep_view() =~= Seq::<Seq<char>>::empty());
    }
    v
}

fn one_line(s: String) -> (v: Vec<String>)
    ensures
        v.deep_view() == seq![s@],
{
    let mut v: Vec<String> = Vec::new();
    v.push(s);
    proof {
        assert(v.deep_view() =~= seq![s@]);
    }
    v
}

fn op_at(i: usize) -> (op: Op)
    requires
        i < STEP_COUNT,
    ensures
        op == spec_op_at(i as int),
{
    if i == 0 {
        Op::CleanupRemove(FileKind::Primary)
    } else if i == 1 {
        Op::CleanupRemove(FileKind::Wal)
    } else if i == 2 {
        Op::CleanupRemove(FileKind::Shm)
    } else if i == 3 {
        Op::Open
    } else if i == 4 {
        Op::EnableWal
    } else if i == 5 {
        Op::CreateSchema
    } else if i == 6 {
        Op::InsertSeed
    } else if i == 7 {
        Op::CheckExists(FileKind::Primary)
    } else if i == 8 {
        Op::CheckExists(FileKind::Wal)
    } else if i == 9 {
        Op::CheckExists(FileKind::Shm)
    } else if i == 10 {
        Op::Unlink
    } else if i == 11 {
        Op::Pause
    } else if i == 12 {
        Op::WriteAfterUnlink
    } else if i == 13 {
        Op::InvalidStatement
    } else if i == 14 {
        Op::ReadCount
    } else if i == 15 {
        Op::CreateSecondTable
    } else if i == 16 {
        Op::Close
    } else if i == 17 {
        Op::FinalRemove(FileKind::Wal)
    } else {
        Op::FinalRemove(FileKind::Shm)
    }
}

impl Probe {
    /// A probe that has not run yet. Nothing is known absent: any of the
    /// three files may have been left behind by an earlier run.
    pub fn new() -> (p: Probe)
        ensures
            p.step == 0,
            !p.aborted,
            !p.handle_open,
            p.primary_present,
            p.wal_present,
            p.shm_present,
    {
        Probe {
            step: 0,
            aborted: false,
            handle_open: false,
            primary_present: true,
            wal_present: true,
            shm_present: true,
        }
    }

    /// The operation to perform next, or `None` when the run is over.
    pub fn current_op(&self) -> (r: Option<Op>)
        ensures
            r == spec_current(*self),
    {
        if self.aborted || self.step >= STEP_COUNT {
            None
        } else {
            Some(op_at(self.step))
        }
    }

    /// The numbered header to print before performing the current
    /// operation, where the operation starts a phase.
    pub fn current_header(&self) -> (r: Option<String>)
        ensures
            r.deep_view() == if spec_finished(*self) {
                None::<Seq<char>>
            } else {
                spec_header_at(self.step as int)
            },
    {
        if self.aborted || self.step >= STEP_COUNT {
            None
        } else if self.step == 3 {
            Some(String::from_str("1. Creating database and opening connection..."))
        } else if self.step == 4 {
            Some(String::from_str("2. Enabling WAL mode..."))
        } else if self.step == 5 {
            Some(String::from_str("3. Creating table and inserting data..."))
        } else if self.step == 7 {
            Some(String::from_str("4. Verifying files exist..."))
        } else if self.step == 10 {
            Some(String::from_str("5. UNLINKING DATABASE FILE..."))
        } else if self.step == 12 {
            Some(String::from_str("6. Attempting write after unlink..."))
        } else if self.step == 13 {
            Some(String::from_str("7. Demonstrating logs are still connected..."))
        } else if self.step == 14 {
            Some(String::from_str("8. Attempting read after unlink..."))
        } else if self.step == 15 {
            Some(String::from_str("9. Creating another table after unlink..."))
        } else if self.step == 16 {
            Some(String::from_str("10. Closing connection..."))
        } else if self.step == 17 {
            Some(String::from_str("11. Cleaning up remaining files..."))
        } else {
            None
        }
    }
}

impl Probe {
    fn set_absent(&mut self, k: FileKind)
        ensures
            *final(self) == spec_set_absent(*old(self), k),
    {
        match k {
            FileKind::Primary => self.primary_present = false,
            FileKind::Wal => self.wal_present = false,
            FileKind::Shm => self.shm_present = false,
        }
    }

    /// Records the outcome of the current operation: updates the model,
    /// moves to the next step, and reports the transcript lines and whether
    /// the outcome aborts the run.
    pub fn advance(&mut self, ev: Event) -> (r: StepReport)
        requires
            !spec_finished(*old(self)),
            event_fits(spec_op_at(old(self).step as int), ev),
        ensures
            *final(self) == spec_next(*old(self), ev),
            r.lines.deep_view() == spec_lines_at(old(self).step as int, ev),
            r.fatal == (spec_fatal_at(old(self).step as int) && ev is Failed),
    {
        let i = self.step;
        let op = op_at(i);
        self.step = i + 1;
        let (lines, fatal): (Vec<String>, bool) = match op {
            Op::CleanupRemove(k) => {
                match ev {
                    Event::Completed => {
                        self.set_absent(k);
                        (no_lines(), false)
                    },
                    _ => (no_lines(), false),
                }
            },
            Op::Open => {
                match ev {
                    Event::Failed(_) => {
                        self.aborted = true;
                        (no_lines(), true)
                    },
                    _ => {
                        self.handle_open = true;
                        self.primary_present = true;
                        (no_lines(), false)
                    },
                }
            },
            Op::EnableWal => {
                match ev {
                    Event::Failed(_) => {
                        self.aborted = true;
                        (no_lines(), true)
                    },
                    _ => (no_lines(), false),
                }
            },
            Op::CreateSchema => {
                match ev {
                    Event::Failed(_) => {
                        self.aborted = true;
                        (no_lines(), true)
                    },
                    _ => {
                        self.wal_present = true;
                        self.shm_present = true;
                        (no_lines(), false)
                    },
                }
            },
            Op::InsertSeed => {
                match ev {
                    Event::Failed(_) => {
                        self.aborted = true;
                        (no_lines(), true)
                    },
                    _ => (no_lines(), false),
                }
            },
            Op::CheckExists(k) => {
                match ev {
                    Event::Present(b) => {
                        let line = if b {
                            String::from_str("  ").concat(file_path(k)).concat(" exists")
                        } else {
                            String::from_str("  ").concat(file_path(k)).concat(" missing")
                        };
                        proof {
                            assert(seq![line@] =~~= spec_lines_at(i as int, ev));
                        }
                        (one_line(line), false)
                    },
                    _ => (no_lines(), false),
                }
            },
            Op::Unlink => {
                match ev {
                    Event::Completed => {
                        self.primary_present = false;
                        let line = String::from_str("  test.db has been unlinked!");
                        (one_line(line), false)
                    },
                    Event::Failed(m) => {
                        let line = String::from_str("  Unlink failed: ").concat(m.as_str());
                        proof {
                            assert(seq![line@] =~~= spec_lines_at(i as int, Event::Failed(m)));
                        }
                        (one_line(line), false)
                    },
                    _ => (no_lines(), false),
                }
            },
            Op::Pause => (no_lines(), false),
            Op::WriteAfterUnlink => {
                match ev {
                    Event::Completed => {
                        (one_line(String::from_str("  Write succeeded after unlink")), false)
                    },
                    Event::Failed(m) => {
                        let line = String::from_str("  Write failed: ").concat(m.as_str());
                        proof {
                            assert(seq![line@] =~~= spec_lines_at(i as int, Event::Failed(m)));
                        }
                        (one_line(line), false)
                    },
                    _ => (no_lines(), false),
                }
            },
            Op::InvalidStatement => {
                match ev {
                    Event::Completed => (one_line(String::from_str("Unexpected success")), false),
                    Event::Failed(m) => {
                        let line = String::from_str("Expected error: ").concat(m.as_str());
                        proof {
                            assert(seq![line@] =~~= spec_lines_at(i as int, Event::Failed(m)));
                        }
                        (one_line(line), false)
                    },
                    _ => (no_lines(), false),
                }
            },
            Op::ReadCount => {
                match ev {
                    Event::Count(n) => {
                        let num = i64_to_string(n);
                        let line = String::from_str("  Read succeeded, count: ").concat(
                            num.as_str(),
                        );
                        proof {
                            assert(seq![line@] =~~= spec_lines_at(i as int, Event::Count(n)));
                        }
                        (one_line(line), false)
                    },
                    Event::Failed(m) => {
                        let line = String::from_str("  Read failed: ").concat(m.as_str());
                        proof {
                            assert(seq![line@] =~~= spec_lines_at(i as int, Event::Failed(m)));
                        }
                        (one_line(line), false)
                    },
                    _ => (no_lines(), false),
                }
            },
            Op::CreateSecondTable => {
                match ev {
                    Event::Completed => {
                        (one_line(String::from_str("  Table creation succeeded after unlink")),
                        false)
                    },
                    Event::Failed(m) => {
                        let line = String::from_str("  Table creation failed: ").concat(m.as_str());
                        proof {
                            assert(seq![line@] =~~= spec_lines_at(i as int, Event::Failed(m)));
                        }
                        (one_line(line), false)
                    },
                    _ => (no_lines(), false),
                }
            },
            Op::Close => {
                self.handle_open = false;
                (no_lines(), false)
            },
            Op::FinalRemove(k) => {
                match ev {
                    Event::Completed => {
                        self.set_absent(k);
                        (no_lines(), false)
                    },
                    _ => (no_lines(), false),
                }
            },
        };
        StepReport { lines, fatal }
    }
}

/// The completion marker printed once the whole schedule has run.
pub fn done_marker() -> (s: &'static str)
    ensures
        s@ == "Done"@,
{
    "Done"
}

/// The probe's state after a sequence of outcomes, one per step, stopping
/// early when the run is over.
pub open spec fn spec_run(p: Probe, evs: Seq<Event>) -> Probe
    decreases evs.len(),
{
    if evs.len() == 0 || spec_finished(p) {
        p
    } else {
        spec_run(spec_next(p, evs[0]), evs.skip(1))
    }
}

/// Law: when the setup operations all succeed — opening the database,
/// switching to write-ahead logging, creating the table and inserting the
/// seed row — the probe's model has the primary file present, both sidecar
/// files present, and the handle open.
pub proof fn lemma_setup_files_present(p: Probe, evs: Seq<Event>)
    requires
        p.step == 0,
        !p.aborted,
        evs.len() == 7,
        evs[3] is Completed,
        evs[4] is Completed,
        evs[5] is Completed,
        evs[6] is Completed,
    ensures
        spec_run(p, evs).step == 7,
        !spec_run(p, evs).aborted,
        spec_run(p, evs).primary_present,
        spec_run(p, evs).wal_present,
        spec_run(p, evs).shm_present,
        spec_run(p, evs).handle_open,
{
    let p1 = spec_next(p, evs[0]);
    assert(spec_run(p, evs) == spec_run(p1, evs.skip(1)));
    assert(evs.skip(1)[0] == evs[1]);
    let p2 = spec_next(p1, evs[1]);
    assert(spec_run(p1, evs.skip(1)) == spec_run(p2, evs.skip(1).skip(1)));
    assert(evs.skip(1).skip(1) =~= evs.skip(2));
    assert(evs.skip(2)[0] == evs[2]);
    let p3 = spec_next(p2, evs[2]);
    assert(spec_run(p2, evs.skip(2)) == spec_run(p3, evs.skip(2).skip(1)));
    assert(evs.skip(2).skip(1) =~= evs.skip(3));
    assert(evs.skip(3)[0] == evs[3]);
    let p4 = spec_next(p3, evs[3]);
    assert(spec_run(p3, evs.skip(3)) == spec_run(p4, evs.skip(3).skip(1)));
    assert(evs.skip(3).skip(1) =~= evs.skip(4));
    assert(evs.skip(4)[0] == evs[4]);
    let p5 = spec_next(p4, evs[4]);
    assert(spec_run(p4, evs.skip(4)) == spec_run(p5, evs.skip(4).skip(1)));
    assert(evs.skip(4).skip(1) =~= evs.skip(5));
    assert(evs.skip(5)[0] == evs[5]);
    let p6 = spec_next(p5, evs[5]);
    assert(spec_run(p5, evs.skip(5)) == spec_run(p6, evs.skip(5).skip(1)));
    assert(evs.skip(5).skip(1) =~= evs.skip(6));
    assert(evs.skip(6)[0] == evs[6]);
    let p7 = spec_next(p6, evs[6]);
    assert(spec_run(p6, evs.skip(6)) == spec_run(p7, evs.skip(6).skip(1)));
    assert(spec_run(p7, evs.skip(6).skip(1)) == p7);
}

/// Law: a successful unlink leaves the model with the primary file absent
/// while the handle stays open, and the schedule still proceeds to the
/// post-unlink write, whose outcome is never treated as fatal.
pub proof fn lemma_unlink_keeps_handle(p: Probe)
    requires
        !p.aborted,
        p.step == 10,
        p.handle_open,
    ensures
        !spec_next(p, Event::Completed).primary_present,
        spec_next(p, Event::Completed).handle_open,
        !spec_next(p, Event::Completed).aborted,
        spec_op_at(12) == Op::WriteAfterUnlink,
        !spec_fatal_at(12),
{
}

/// Law: the invalid-statement step reports every outcome and aborts on
/// none: an engine error is printed as the expected error, and a success is
/// flagged as unexpected rather than passing silently.
pub proof fn lemma_invalid_statement_reported(m: String)
    ensures
        spec_op_at(13) == Op::InvalidStatement,
        !spec_fatal_at(13),
        spec_lines_at(13, Event::Failed(m)) == seq!["Expected error: "@ + m@],
        spec_lines_at(13, Event::Completed) == seq!["Unexpected success"@],
{
}

/// Law: a run that reaches the unlink and the two final removals with each
/// confirmed leaves every file known absent — whatever was on disk before
/// the run and however the experiment steps turned out.
pub proof fn lemma_terminal_absence(p: Probe, evs: Seq<Event>)
    requires
        p.step == 0,
        !p.aborted,
        evs.len() == STEP_COUNT,
        evs[3] is Completed,
        evs[4] is Completed,
        evs[5] is Completed,
        evs[6] is Completed,
        evs[10] is Completed,
        evs[17] is Completed,
        evs[18] is Completed,
    ensures
        spec_run(p, evs).step == STEP_COUNT,
        !spec_run(p, evs).aborted,
        !spec_run(p, evs).primary_present,
        !spec_run(p, evs).wal_present,
        !spec_run(p, evs).shm_present,
        !spec_run(p, evs).handle_open,
{
    let p1 = spec_next(p, evs[0]);
    assert(spec_run(p, evs) == spec_run(p1, evs.skip(1)));
    assert(evs.skip(1)[0] == evs[1]);
    let p2 = spec_next(p1, evs[1]);
    assert(spec_run(p1, evs.skip(1)) == spec_run(p2, evs.skip(1).skip(1)));
    assert(evs.skip(1).skip(1) =~= evs.skip(2));
    assert(evs.skip(2)[0] == evs[2]);
    let p3 = spec_next(p2, evs[2]);
    assert(spec_run(p2, evs.skip(2)) == spec_run(p3, evs.skip(2).skip(1)));
    assert(evs.skip(2).skip(1) =~= evs.skip(3));
    assert(evs.skip(3)[0] == evs[3]);
    let p4 = spec_next(p3, evs[3]);
    assert(spec_run(p3, evs.skip(3)) == spec_run(p4, evs.skip(3).skip(1)));
    assert(evs.skip(3).skip(1) =~= evs.skip(4));
    assert(evs.skip(4)[0] == evs[4]);
    let p5 = spec_next(p4, evs[4]);
    assert(spec_run(p4, evs.skip(4)) == spec_run(p5, evs.skip(4).skip(1)));
    assert(evs.skip(4).skip(1) =~= evs.skip(5));
    assert(evs.skip(5)[0] == evs[5]);
    let p6 = spec_next(p5, evs[5]);
    assert(spec_run(p5, evs.skip(5)) == spec_run(p6, evs.skip(5).skip(1)));
    assert(evs.skip(5).skip(1) =~= evs.skip(6));
    assert(evs.skip(6)[0] == evs[6]);
    let p7 = spec_next(p6, evs[6]);
    assert(spec_run(p6, evs.skip(6)) == spec_run(p7, evs.skip(6).skip(1)));
    assert(evs.skip(6).skip(1) =~= evs.skip(7));
    assert(evs.skip(7)[0] == evs[7]);
    let p8 = spec_next(p7, evs[7]);
    assert(spec_run(p7, evs.skip(7)) == spec_run(p8, evs.skip(7).skip(1)));
    assert(evs.skip(7).skip(1) =~= evs.skip(8));
    assert(evs.skip(8)[0] == evs[8]);
    let p9 = spec_next(p8, evs[8]);
    assert(spec_run(p8, evs.skip(8)) == spec_run(p9, evs.skip(8).skip(1)));
    assert(evs.skip(8).skip(1) =~= evs.skip(9));
    assert(evs.skip(9)[0] == evs[9]);
    let p10 = spec_next(p9, evs[9]);
    assert(spec_run(p9, evs.skip(9)) == spec_run(p10, evs.skip(9).skip(1)));
    assert(evs.skip(9).skip(1) =~= evs.skip(10));
    assert(evs.skip(10)[0] == evs[10]);
    let p11 = spec_next(p10, evs[10]);
    assert(spec_run(p10, evs.skip(10)) == spec_run(p11, evs.skip(10).skip(1)));
    assert(evs.skip(10).skip(1) =~= evs.skip(11));
    assert(evs.skip(11)[0] == evs[11]);
    let p12 = spec_next(p11, evs[11]);
    assert(spec_run(p11, evs.skip(11)) == spec_run(p12, evs.skip(11).skip(1)));
    assert(evs.skip(11).skip(1) =~= evs.skip(12));
    assert(evs.skip(12)[0] == evs[12]);
    let p13 = spec_next(p12, evs[12]);
    assert(spec_run(p12, evs.skip(12)) == spec_run(p13, evs.skip(12).skip(1)));
    assert(evs.skip(12).skip(1) =~= evs.skip(13));
    assert(evs.skip(13)[0] == evs[13]);
    let p14 = spec_next(p13, evs[13]);
    assert(spec_run(p13, evs.skip(13)) == spec_run(p14, evs.skip(13).skip(1)));
    assert(evs.skip(13).skip(1) =~= evs.skip(14));
    assert(evs.skip(14)[0] == evs[14]);
    let p15 = spec_next(p14, evs[14]);
    assert(spec_run(p14, evs.skip(14)) == spec_run(p15, evs.skip(14).skip(1)));
    assert(evs.skip(14).skip(1) =~= evs.skip(15));
    assert(evs.skip(15)[0] == evs[15]);
    let p16 = spec_next(p15, evs[15]);
    assert(spec_run(p15, evs.skip(15)) == spec_run(p16, evs.skip(15).skip(1)));
    assert(evs.skip(15).skip(1) =~= evs.skip(16));
    assert(evs.skip(16)[0] == evs[16]);
    let p17 = spec_next(p16, evs[16]);
    assert(spec_run(p16, evs.skip(16)) == spec_run(p17, evs.skip(16).skip(1)));
    assert(evs.skip(16).skip(1) =~= evs.skip(17));
    assert(evs.skip(17)[0] == evs[17]);
    let p18 = spec_next(p17, evs[17]);
    assert(spec_run(p17, evs.skip(17)) == spec_run(p18, evs.skip(17).skip(1)));
    assert(evs.skip(17).skip(1) =~= evs.skip(18));
    assert(evs.skip(18)[0] == evs[18]);
    let p19 = spec_next(p18, evs[18]);
    assert(spec_run(p18, evs.skip(18)) == spec_run(p19, evs.skip(18).skip(1)));
    assert(spec_run(p19, evs.skip(18).skip(1)) == p19);
}

/// Law: cleanup is idempotent. Two complete runs, each with its unlink and
/// final removals confirmed, end with the same file-absence state — all
/// three files known absent — regardless of what was on disk before each
/// run and of how the experiment steps turned out.
pub proof fn lemma_cleanup_idempotent(pa: Probe, evsa: Seq<Event>, pb: Probe, evsb: Seq<Event>)
    requires
        pa.step == 0,
        !pa.aborted,
        evsa.len() == STEP_COUNT,
        evsa[3] is Completed,
        evsa[4] is Completed,
        evsa[5] is Completed,
        evsa[6] is Completed,
        evsa[10] is Completed,
        evsa[17] is Completed,
        evsa[18] is Completed,
        pb.step == 0,
        !pb.aborted,
        evsb.len() == STEP_COUNT,
        evsb[3] is Completed,
        evsb[4] is Completed,
        evsb[5] is Completed,
        evsb[6] is Completed,
        evsb[10] is Completed,
        evsb[17] is Completed,
        evsb[18] is Completed,
    ensures
        spec_run(pa, evsa).primary_present == spec_run(pb, evsb).primary_present,
        spec_run(pa, evsa).wal_present == spec_run(pb, evsb).wal_present,
        spec_run(pa, evsa).shm_present == spec_run(pb, evsb).shm_present,
        !spec_run(pa, evsa).primary_present,
        !spec_run(pa, evsa).wal_present,
        !spec_run(pa, evsa).shm_present,
{
    lemma_terminal_absence(pa, evsa);
    lemma_terminal_absence(pb, evsb);
}

} // verus!
