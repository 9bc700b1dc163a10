//! Collecting the configuration of a device over a remote shell.
//!
//! The collector names one command after the other; the caller runs each on
//! the device and reports what came back. A section whose command failed or
//! printed nothing is left out, the others become entries of the archive, in
//! the order of the commands. The archive only exists once the last command
//! has been reported, and it is finished before it is handed out.

use vstd::prelude::*;
use vstd::string::*;
use vstd::utf8::encode_utf8;
use crate::archive::{
    all_storable, encode_archive, encoded, entry_views, plain_entry_path, ArchiveEntry,
    ArchiveError, MAX_MODE,
};
use crate::text::catenate;

verus! {

/// The number of configuration sections.
pub const SECTION_COUNT: usize = 5;

/// The number of commands of a collection: one for each section, and one for
/// the description of the device.
pub const STEP_COUNT: usize = 6;

/// The permission bits of every entry.
pub const ENTRY_MODE: u32 = 0o644;

/// The name of the section at `index`.
pub open spec fn section_name_of(index: int) -> Seq<char> {
    if index == 0 {
        "system"@
    } else if index == 1 {
        "wireless"@
    } else if index == 2 {
        "network"@
    } else if index == 3 {
        "dhcp"@
    } else {
        "firewall"@
    }
}

/// The command of the step `step`: it prints a section, or, as the last
/// step, the description of the device.
pub open spec fn command_of(step: int) -> Seq<char> {
    if step < SECTION_COUNT {
        "cat /etc/config/"@ + section_name_of(step)
    } else {
        "cat /etc/board.json"@
    }
}

/// The path in the archive of what the step `step` printed.
pub open spec fn entry_path_of(step: int) -> Seq<char> {
    if step < SECTION_COUNT {
        "etc/config/"@ + section_name_of(step)
    } else {
        "system_info.json"@
    }
}

/// What running a command gave.
#[derive(Debug)]
pub enum CommandOutcome {
    /// No channel could be opened for the command.
    Unavailable,
    /// The command ran and ended with `exit_status`, having printed `output`.
    Finished { exit_status: i32, output: String },
}

/// What became of a step.
#[derive(Clone, Copy, Debug, PartialEq, Eq, Structural)]
pub enum SectionStatus {
    /// The output is an entry of the archive.
    BackedUp,
    /// The command failed or printed nothing: the step is left out.
    Unreadable,
    /// The command was not run: the step is left out.
    Skipped,
}

/// Whether an outcome yields an entry: the command ended with status 0 and
/// printed something.
pub open spec fn captured(outcome: CommandOutcome) -> bool {
    match outcome {
        CommandOutcome::Finished { exit_status, output } => exit_status == 0 && output@.len() > 0,
        CommandOutcome::Unavailable => false,
    }
}

/// What becomes of a step with the outcome `outcome`.
pub open spec fn status_of(outcome: CommandOutcome) -> SectionStatus {
    match outcome {
        CommandOutcome::Unavailable => SectionStatus::Skipped,
        CommandOutcome::Finished { .. } => if captured(outcome) {
            SectionStatus::BackedUp
        } else {
            SectionStatus::Unreadable
        },
    }
}

/// The entry that the captured outcome `outcome` of the step `step` yields:
/// the bytes of the output under the path of the step.
pub open spec fn entry_of(step: int, outcome: CommandOutcome) -> (Seq<char>, u32, Seq<u8>) {
    (entry_path_of(step), ENTRY_MODE, encode_utf8(outcome->output@))
}

/// The entries after the step `step` ended with `outcome`, where `entries`
/// were collected before.
pub open spec fn entries_after(
    step: int,
    entries: Seq<(Seq<char>, u32, Seq<u8>)>,
    outcome: CommandOutcome,
) -> Seq<(Seq<char>, u32, Seq<u8>)> {
    if captured(outcome) {
        entries.push(entry_of(step, outcome))
    } else {
        entries
    }
}

/// The number of captured outcomes among the first `upto` of `outcomes`.
pub open spec fn captured_count(outcomes: Seq<CommandOutcome>, upto: int) -> int
    decreases upto,
{
    if upto <= 0 {
        0
    } else {
        captured_count(outcomes, upto - 1) + if captured(outcomes[upto - 1]) {
            1int
        } else {
            0int
        }
    }
}

/// The entries of a collection whose commands ended with `outcomes`, one
/// after the other.
pub open spec fn collected(outcomes: Seq<CommandOutcome>) -> Seq<(Seq<char>, u32, Seq<u8>)>
    decreases outcomes.len(),
{
    if outcomes.len() == 0 {
        Seq::empty()
    } else {
        entries_after(outcomes.len() - 1, collected(outcomes.drop_last()), outcomes.last())
    }
}

/// The count of captured outcomes among the first `upto` looks at no others.
proof fn lemma_count_of_prefix(outcomes: Seq<CommandOutcome>, shorter: Seq<CommandOutcome>, upto: int)
    requires
        0 <= upto <= shorter.len() <= outcomes.len(),
        forall|i: int| 0 <= i < shorter.len() ==> shorter[i] == outcomes[i],
    ensures
        captured_count(shorter, upto) == captured_count(outcomes, upto),
        0 <= captured_count(outcomes, upto) <= upto,
    decreases upto,
{
    if upto > 0 {
        lemma_count_of_prefix(outcomes, shorter, upto - 1);
    }
}

/// A collection holds one entry for each captured outcome and no other, in
/// the order of the steps: the entry of a captured step stands at the
/// position that the number of captured steps before it gives.
pub proof fn lemma_collected_in_order(outcomes: Seq<CommandOutcome>)
    ensures
        collected(outcomes).len() == captured_count(outcomes, outcomes.len() as int),
        forall|i: int|
            0 <= i < outcomes.len() && captured(#[trigger] outcomes[i]) ==> 0 <= captured_count(
                outcomes,
                i,
            ) < collected(outcomes).len() && collected(outcomes)[captured_count(outcomes, i)]
                == entry_of(i, outcomes[i]),
    decreases outcomes.len(),
{
    let n = outcomes.len() as int;
    if n > 0 {
        let before = outcomes.drop_last();
        lemma_collected_in_order(before);
        lemma_count_of_prefix(outcomes, before, n - 1);
        assert forall|i: int| 0 <= i < n && captured(#[trigger] outcomes[i]) implies 0
            <= captured_count(outcomes, i) < collected(outcomes).len() && collected(
            outcomes,
        )[captured_count(outcomes, i)] == entry_of(i, outcomes[i]) by {
            lemma_count_of_prefix(outcomes, before, if i < n - 1 {
                i
            } else {
                n - 1
            });
            if i < n - 1 {
                assert(before[i] == outcomes[i]);
                lemma_count_of_prefix(outcomes, before, i + 1);
                assert(captured_count(outcomes, i) < captured_count(outcomes, i + 1));
                lemma_count_monotone(outcomes, i + 1, n - 1);
                assert(collected(before)[captured_count(before, i)] == entry_of(i, before[i]));
            }
        }
    }
}

/// The count of captured outcomes does not shrink as more are looked at.
proof fn lemma_count_monotone(outcomes: Seq<CommandOutcome>, from: int, to: int)
    requires
        from <= to,
    ensures
        captured_count(outcomes, from) <= captured_count(outcomes, to),
    decreases to - from,
{
    if from < to {
        lemma_count_monotone(outcomes, from, to - 1);
    }
}

/// The path of every step is plain.
pub proof fn lemma_entry_paths_plain(step: int)
    requires
        0 <= step < STEP_COUNT,
    ensures
        plain_entry_path(entry_path_of(step)),
{
    reveal_strlit("etc/config/");
    reveal_strlit("system_info.json");
    reveal_strlit("system");
    reveal_strlit("wireless");
    reveal_strlit("network");
    reveal_strlit("dhcp");
    reveal_strlit("firewall");
    let p = entry_path_of(step);
    if step == 0 {
        assert(p =~= "etc/config/"@ + "system"@);
    } else if step == 1 {
        assert(p =~= "etc/config/"@ + "wireless"@);
    } else if step == 2 {
        assert(p =~= "etc/config/"@ + "network"@);
    } else if step == 3 {
        assert(p =~= "etc/config/"@ + "dhcp"@);
    } else if step == 4 {
        assert(p =~= "etc/config/"@ + "firewall"@);
    }
}

/// A collection yields at most one entry for each command, and the entries
/// it yields are those of the commands that were captured.
pub proof fn lemma_collected_bounds(outcomes: Seq<CommandOutcome>)
    ensures
        collected(outcomes).len() <= outcomes.len(),
        (forall|i: int| 0 <= i < outcomes.len() ==> !captured(#[trigger] outcomes[i]))
            ==> collected(outcomes).len() == 0,
    decreases outcomes.len(),
{
    if outcomes.len() > 0 {
        let before = outcomes.drop_last();
        lemma_collected_bounds(before);
        if forall|i: int| 0 <= i < outcomes.len() ==> !captured(#[trigger] outcomes[i]) {
            assert forall|i: int| 0 <= i < before.len() implies !captured(#[trigger] before[i]) by {
                assert(before[i] == outcomes[i]);
            }
            assert(!captured(outcomes[outcomes.len() - 1]));
        }
    }
}

/// When every section fails, a whole collection yields nothing, or only the
/// description of the device.
pub proof fn lemma_all_sections_failing(outcomes: Seq<CommandOutcome>)
    requires
        outcomes.len() == STEP_COUNT,
        forall|i: int| 0 <= i < SECTION_COUNT ==> !captured(#[trigger] outcomes[i]),
    ensures
        collected(outcomes) == if captured(outcomes[5]) {
            seq![entry_of(5, outcomes[5])]
        } else {
            Seq::empty()
        },
        collected(outcomes).len() <= 1,
{
    let sections = outcomes.drop_last();
    assert forall|i: int| 0 <= i < sections.len() implies !captured(#[trigger] sections[i]) by {
        assert(sections[i] == outcomes[i]);
    }
    lemma_collected_bounds(sections);
    assert(collected(sections) =~= Seq::empty());
    assert(outcomes.last() == outcomes[5]);
    if captured(outcomes[5]) {
        assert(collected(outcomes) =~= seq![entry_of(5, outcomes[5])]);
    }
}

/// The name of the section at `index`.
fn section_name(index: usize) -> (r: &'static str)
    requires
        index < SECTION_COUNT,
    ensures
        r@ == section_name_of(index as int),
{
    if index == 0 {
        "system"
    } else if index == 1 {
        "wireless"
    } else if index == 2 {
        "network"
    } else if index == 3 {
        "dhcp"
    } else {
        "firewall"
    }
}

/// The command of the step `step`.
fn step_command(step: usize) -> (r: String)
    requires
        step < STEP_COUNT,
    ensures
        r@ == command_of(step as int),
{
    if step < SECTION_COUNT {
        catenate("cat /etc/config/", section_name(step))
    } else {
        String::from_str("cat /etc/board.json")
    }
}

/// The path in the archive of what the step `step` printed.
fn step_entry_path(step: usize) -> (r: String)
    requires
        step < STEP_COUNT,
    ensures
        r@ == entry_path_of(step as int),
{
    if step < SECTION_COUNT {
        catenate("etc/config/", section_name(step))
    } else {
        String::from_str("system_info.json")
    }
}

/// Every entry of a collection of at most six commands can be stored.
pub proof fn lemma_collected_storable(outcomes: Seq<CommandOutcome>)
    requires
        outcomes.len() <= STEP_COUNT,
    ensures
        all_storable(collected(outcomes)),
    decreases outcomes.len(),
{
    if outcomes.len() > 0 {
        lemma_collected_storable(outcomes.drop_last());
        lemma_entry_paths_plain(outcomes.len() - 1);
        let before = collected(outcomes.drop_last());
        let after = collected(outcomes);
        assert forall|i: int| 0 <= i < after.len() implies plain_entry_path(
            (#[trigger] after[i]).0,
        ) && after[i].1 <= MAX_MODE by {
            if i < before.len() {
                assert(after[i] == before[i]);
            }
        }
    }
}

/// A collection in progress: the step whose outcome is awaited and the
/// entries collected before it.
pub struct Collector {
    step: usize,
    entries: Vec<ArchiveEntry>,
    reported: Ghost<Seq<CommandOutcome>>,
}

/// What to do next in a collection.
pub enum CollectStep {
    /// Run `command` on the device and report its outcome to `collector`.
    Run { collector: Collector, command: String },
    /// Every command has been reported; `archive` is the finished archive,
    /// unless writing it failed.
    Done { archive: Result<Vec<u8>, ArchiveError> },
}

/// What a report to the collector brought about.
pub struct Progress {
    /// The step that was reported.
    pub step: usize,
    /// What became of it.
    pub status: SectionStatus,
    /// What to do next.
    pub next: CollectStep,
}

impl Collector {
    #[verifier::type_invariant]
    spec fn inv(self) -> bool {
        &&& self.step < STEP_COUNT
        &&& self.step == self.reported@.len()
        &&& entry_views(self.entries@) == collected(self.reported@)
    }

    /// The outcomes reported so far, in the order of the steps.
    pub closed spec fn reported(&self) -> Seq<CommandOutcome> {
        self.reported@
    }

    /// Starts a collection: nothing is reported yet, and the first command
    /// is to be run.
    pub fn begin() -> (r: (Collector, String))
        ensures
            r.0.reported() == Seq::<CommandOutcome>::empty(),
            r.1@ == command_of(0),
    {
        let entries: Vec<ArchiveEntry> = Vec::new();
        assert(entry_views(entries@) =~= collected(Seq::empty()));
        let collector = Collector { step: 0, entries, reported: Ghost(Seq::empty()) };
        (collector, step_command(0))
    }

    /// The number of the step whose outcome is awaited.
    pub fn step(&self) -> (r: usize)
        ensures
            r == self.reported().len(),
            r < STEP_COUNT,
    {
        proof {
            use_type_invariant(self);
        }
        self.step
    }

    /// Takes the outcome of the awaited step. If the command was captured its
    /// output becomes an entry, behind the others; otherwise the entries stay
    /// as they are. Then the next command is named or, after the last step,
    /// the archive of all entries is built: it holds what the reported
    /// outcomes yield, and it is finished. The archive is handed out
    /// wherever there is one; the failure to write it, wherever there is
    /// none.
    pub fn advance(self, outcome: CommandOutcome) -> (r: Progress)
        ensures
            r.step == self.reported().len(),
            r.status == status_of(outcome),
            match r.next {
                CollectStep::Run { collector, command } => {
                    &&& self.reported().len() + 1 < STEP_COUNT
                    &&& collector.reported() == self.reported().push(outcome)
                    &&& command@ == command_of(self.reported().len() + 1 as int)
                },
                CollectStep::Done { archive } => {
                    &&& self.reported().len() + 1 == STEP_COUNT
                    &&& match archive {
                        Ok(bytes) => encoded(collected(self.reported().push(outcome))) == Some(
                            bytes@,
                        ),
                        Err(e) => e is Write && encoded(
                            collected(self.reported().push(outcome)),
                        ) is None,
                    }
                },
            },
    {
        proof {
            use_type_invariant(&self);
        }
        let Collector { step, entries, reported } = self;
        let mut entries = entries;
        let ghost before = entry_views(entries@);
        let ghost history = reported@.push(outcome);
        let status = match &outcome {
            CommandOutcome::Unavailable => SectionStatus::Skipped,
            CommandOutcome::Finished { exit_status, output } => {
                if *exit_status == 0 && !output.as_str().is_empty() {
                    let entry = ArchiveEntry {
                        path: step_entry_path(step),
                        mode: ENTRY_MODE,
                        data: output.as_str().as_bytes_vec(),
                    };
                    entries.push(entry);
                    SectionStatus::BackedUp
                } else {
                    SectionStatus::Unreadable
                }
            },
        };
        proof {
            assert(history.drop_last() =~= reported@);
            assert(entry_views(entries@) =~= collected(history));
            lemma_collected_storable(history);
        }
        let next = if step + 1 < STEP_COUNT {
            CollectStep::Run {
                collector: Collector { step: step + 1, entries, reported: Ghost(history) },
                command: step_command(step + 1),
            }
        } else {
            let archive = encode_archive(&entries);
            proof {
                if let Err(ArchiveError::UnsupportedEntry { index }) = archive {
                    assert(collected(history)[index as int] == entries@[index as int]@);
                }
            }
            CollectStep::Done { archive }
        };
        Progress { step, status, next }
    }
}

} // verus!
