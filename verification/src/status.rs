//! The status block: a summary of the branches and workers in flight, shown
//! to the model at each turn.

use vstd::prelude::*;
use vstd::string::*;
use crate::event::{ProcessEvent, ProcessEventView};
use crate::format::{join, join_lines, lines_view};
use crate::ids::{id_text, id_to_string, BranchId, WorkerId};

verus! {

/// One line of the status block: a process and what it is doing.
#[derive(Clone, Debug, PartialEq, Eq)]
pub struct StatusEntry {
    pub id: u128,
    pub text: String,
    pub interactive: bool,
}

/// Model of a [`StatusEntry`].
pub struct StatusEntryView {
    pub id: u128,
    pub text: Seq<char>,
    pub interactive: bool,
}

impl View for StatusEntry {
    type V = StatusEntryView;

    open spec fn view(&self) -> StatusEntryView {
        StatusEntryView { id: self.id, text: self.text@, interactive: self.interactive }
    }
}

/// Models of a list of entries.
pub open spec fn entries_view(entries: Seq<StatusEntry>) -> Seq<StatusEntryView> {
    entries.map_values(|e: StatusEntry| e@)
}

/// The entries that are not about `id`, in their order.
pub open spec fn without(entries: Seq<StatusEntryView>, id: u128) -> Seq<StatusEntryView>
    decreases entries.len(),
{
    if entries.len() == 0 {
        Seq::empty()
    } else if entries.last().id == id {
        without(entries.drop_last(), id)
    } else {
        without(entries.drop_last(), id).push(entries.last())
    }
}

/// The entry with another text where it is about `id`, else unchanged.
pub open spec fn retexted(entry: StatusEntryView, id: u128, text: Seq<char>) -> StatusEntryView {
    if entry.id == id {
        StatusEntryView { id: entry.id, text, interactive: entry.interactive }
    } else {
        entry
    }
}

/// The entries, with `text` for each entry about `id`.
pub open spec fn with_text(entries: Seq<StatusEntryView>, id: u128, text: Seq<char>) -> Seq<
    StatusEntryView,
> {
    entries.map_values(|e: StatusEntryView| retexted(e, id, text))
}

/// Whether some entry is about `id`.
pub open spec fn mentions(entries: Seq<StatusEntryView>, id: u128) -> bool {
    exists|i: int| 0 <= i < entries.len() && (#[trigger] entries[i]).id == id
}

/// The line that shows an entry.
pub open spec fn entry_line(entry: StatusEntryView) -> Seq<char> {
    let line = "- "@ + id_text(entry.id) + ": "@ + entry.text;
    if entry.interactive {
        line + " (interactive)"@
    } else {
        line
    }
}

/// A heading followed by the lines of the entries, or nothing where there is
/// no entry.
pub open spec fn section_lines(heading: Seq<char>, entries: Seq<StatusEntryView>) -> Seq<
    Seq<char>,
> {
    if entries.len() == 0 {
        Seq::empty()
    } else {
        seq![heading] + entries.map_values(|e: StatusEntryView| entry_line(e))
    }
}

/// Model of a [`StatusBlock`]: the entries of the branches and of the workers,
/// each in the order in which they were last added.
pub struct StatusBlockView {
    pub branches: Seq<StatusEntryView>,
    pub workers: Seq<StatusEntryView>,
}

impl StatusBlockView {
    /// The block without entries.
    pub open spec fn empty() -> StatusBlockView {
        StatusBlockView { branches: Seq::empty(), workers: Seq::empty() }
    }

    /// Whether nothing is in flight.
    pub open spec fn is_idle(self) -> bool {
        self.branches.len() == 0 && self.workers.len() == 0
    }

    /// The block after a branch was added: its entry stands last, and no
    /// earlier entry about the same branch is left.
    pub open spec fn add_branch(self, id: BranchId, text: Seq<char>) -> StatusBlockView {
        StatusBlockView {
            branches: without(self.branches, id).push(
                StatusEntryView { id, text, interactive: false },
            ),
            workers: self.workers,
        }
    }

    /// The block after a worker was added: its entry stands last, and no
    /// earlier entry about the same worker is left.
    pub open spec fn add_worker(
        self,
        id: WorkerId,
        text: Seq<char>,
        interactive: bool,
    ) -> StatusBlockView {
        StatusBlockView {
            branches: self.branches,
            workers: without(self.workers, id).push(StatusEntryView { id, text, interactive }),
        }
    }

    /// The block without the entry of a branch.
    pub open spec fn remove_branch(self, id: BranchId) -> StatusBlockView {
        StatusBlockView { branches: without(self.branches, id), workers: self.workers }
    }

    /// The block without the entry of a worker.
    pub open spec fn remove_worker(self, id: WorkerId) -> StatusBlockView {
        StatusBlockView { branches: self.branches, workers: without(self.workers, id) }
    }

    /// The block after an event: the result of a branch and the end of a
    /// worker clear its entry, a worker's report replaces its text.
    pub open spec fn update(self, event: ProcessEventView) -> StatusBlockView {
        match event {
            ProcessEventView::BranchResult { branch_id, .. } => self.remove_branch(branch_id),
            ProcessEventView::WorkerStatus { worker_id, status, .. } => StatusBlockView {
                branches: self.branches,
                workers: with_text(self.workers, worker_id, status),
            },
            ProcessEventView::WorkerComplete { worker_id, .. } => self.remove_worker(worker_id),
        }
    }

    /// The lines of the summary.
    pub open spec fn lines(self) -> Seq<Seq<char>> {
        section_lines("Active branches:"@, self.branches) + section_lines(
            "Active workers:"@,
            self.workers,
        )
    }

    /// The summary as one text, empty where nothing is in flight.
    pub open spec fn render(self) -> Seq<char> {
        join_lines(self.lines())
    }
}

/// Status of the branches and workers of one channel.
#[derive(Clone, Debug, PartialEq, Eq)]
pub struct StatusBlock {
    branches: Vec<StatusEntry>,
    workers: Vec<StatusEntry>,
}

impl View for StatusBlock {
    type V = StatusBlockView;

    closed spec fn view(&self) -> StatusBlockView {
        StatusBlockView {
            branches: entries_view(self.branches@),
            workers: entries_view(self.workers@),
        }
    }
}

/// Drops the entries about `id`.
fn remove_entry(entries: &mut Vec<StatusEntry>, id: u128)
    ensures
        entries_view(final(entries)@) == without(entries_view(old(entries)@), id),
{
    let ghost before = entries_view(entries@);
    let mut kept: Vec<StatusEntry> = Vec::new();
    let mut i: usize = 0;
    while i < entries.len()
        invariant
            i <= entries.len(),
            before == entries_view(entries@),
            entries_view(kept@) == without(before.take(i as int), id),
        decreases entries.len() - i,
    {
        assert(before.take(i + 1).drop_last() == before.take(i as int));
        assert(before.take(i + 1).last() == entries@[i as int]@);
        if entries[i].id != id {
            let ghost seen = kept@;
            let entry = StatusEntry {
                id: entries[i].id,
                text: entries[i].text.clone(),
                interactive: entries[i].interactive,
            };
            kept.push(entry);
            assert(entries_view(kept@) == entries_view(seen).push(entries@[i as int]@));
        }
        i = i + 1;
    }
    assert(before.take(i as int) == before);
    *entries = kept;
}

/// Gives each entry about `id` the text `text`.
fn retext_entry(entries: &mut Vec<StatusEntry>, id: u128, text: &str)
    ensures
        entries_view(final(entries)@) == with_text(entries_view(old(entries)@), id, text@),
{
    let ghost before = entries_view(entries@);
    let mut i: usize = 0;
    while i < entries.len()
        invariant
            i <= entries.len(),
            entries@.len() == before.len(),
            forall|j: int| 0 <= j < i ==> (#[trigger] entries@[j])@ == retexted(before[j], id, text@),
            forall|j: int| i <= j < entries.len() ==> (#[trigger] entries@[j])@ == before[j],
        decreases entries.len() - i,
    {
        if entries[i].id == id {
            let entry = StatusEntry {
                id,
                text: String::from_str(text),
                interactive: entries[i].interactive,
            };
            entries.set(i, entry);
        }
        i = i + 1;
    }
    assert(entries_view(entries@) == with_text(before, id, text@));
}

/// Appends the lines of one section.
fn push_section(lines: &mut Vec<String>, heading: &str, entries: &Vec<StatusEntry>)
    ensures
        lines_view(final(lines)@) == lines_view(old(lines)@) + section_lines(
            heading@,
            entries_view(entries@),
        ),
{
    let ghost before = lines_view(lines@);
    let ghost shown = entries_view(entries@);
    if entries.len() == 0 {
        assert(before + section_lines(heading@, shown) == before);
        return ;
    }
    lines.push(String::from_str(heading));
    let mut i: usize = 0;
    while i < entries.len()
        invariant
            i <= entries.len(),
            shown == entries_view(entries@),
            lines_view(lines@) == before + seq![heading@] + shown.take(i as int).map_values(
                |e: StatusEntryView| entry_line(e),
            ),
        decreases entries.len() - i,
    {
        let ghost written = lines@;
        let mut line = String::from_str("- ");
        let id = id_to_string(entries[i].id);
        line.append(id.as_str());
        line.append(": ");
        line.append(entries[i].text.as_str());
        if entries[i].interactive {
            line.append(" (interactive)");
        }
        assert(line@ == entry_line(shown[i as int]));
        lines.push(line);
        assert(lines_view(lines@) == lines_view(written).push(line@));
        assert(shown.take(i + 1).map_values(|e: StatusEntryView| entry_line(e)) == shown.take(
            i as int,
        ).map_values(|e: StatusEntryView| entry_line(e)).push(entry_line(shown[i as int])));
        i = i + 1;
    }
    assert(shown.take(i as int) == shown);
}

impl StatusBlock {
    /// A status block without entries.
    pub fn new() -> (block: StatusBlock)
        ensures
            block@ == StatusBlockView::empty(),
    {
        let block = StatusBlock { branches: Vec::new(), workers: Vec::new() };
        assert(entries_view(block.branches@) =~= Seq::empty());
        assert(entries_view(block.workers@) =~= Seq::empty());
        block
    }

    /// Shows a branch with the given text, replacing any entry it had.
    pub fn add_branch(&mut self, id: BranchId, text: &str)
        ensures
            final(self)@ == old(self)@.add_branch(id, text@),
    {
        remove_entry(&mut self.branches, id);
        let ghost cleared = self.branches@;
        let entry = StatusEntry { id, text: String::from_str(text), interactive: false };
        self.branches.push(entry);
        assert(entries_view(self.branches@) == entries_view(cleared).push(entry@));
    }

    /// Shows a worker with the given text, replacing any entry it had.
    pub fn add_worker(&mut self, id: WorkerId, text: &str, interactive: bool)
        ensures
            final(self)@ == old(self)@.add_worker(id, text@, interactive),
    {
        remove_entry(&mut self.workers, id);
        let ghost cleared = self.workers@;
        let entry = StatusEntry { id, text: String::from_str(text), interactive };
        self.workers.push(entry);
        assert(entries_view(self.workers@) == entries_view(cleared).push(entry@));
    }

    /// Takes the entry of a branch away, if it has one.
    pub fn remove_branch(&mut self, id: BranchId)
        ensures
            final(self)@ == old(self)@.remove_branch(id),
    {
        remove_entry(&mut self.branches, id);
    }

    /// Takes the entry of a worker away, if it has one.
    pub fn remove_worker(&mut self, id: WorkerId)
        ensures
            final(self)@ == old(self)@.remove_worker(id),
    {
        remove_entry(&mut self.workers, id);
    }

    /// Follows an event: clears the entry of a branch that has concluded or
    /// of a worker that has ended, and replaces the text of a worker that
    /// reports its status.
    pub fn update(&mut self, event: &ProcessEvent)
        ensures
            final(self)@ == old(self)@.update(event@),
    {
        match event {
            ProcessEvent::BranchResult { branch_id, .. } => {
                self.remove_branch(*branch_id);
            },
            ProcessEvent::WorkerStatus { worker_id, status, .. } => {
                retext_entry(&mut self.workers, *worker_id, status.as_str());
            },
            ProcessEvent::WorkerComplete { worker_id, .. } => {
                self.remove_worker(*worker_id);
            },
        }
    }

    /// Whether the block has no entry.
    pub fn is_empty(&self) -> (idle: bool)
        ensures
            idle == self@.is_idle(),
    {
        self.branches.len() == 0 && self.workers.len() == 0
    }

    /// The entries of the branches, oldest first.
    pub fn branches(&self) -> (entries: &Vec<StatusEntry>)
        ensures
            entries_view(entries@) == self@.branches,
    {
        &self.branches
    }

    /// The entries of the workers, oldest first.
    pub fn workers(&self) -> (entries: &Vec<StatusEntry>)
        ensures
            entries_view(entries@) == self@.workers,
    {
        &self.workers
    }

    /// The summary as text: a heading and one line for each branch, then a
    /// heading and one line for each worker. Empty where the block has no
    /// entry.
    pub fn render(&self) -> (text: String)
        ensures
            text@ == self@.render(),
            text@.len() == 0 <==> self@.is_idle(),
    {
        let mut lines: Vec<String> = Vec::new();
        push_section(&mut lines, "Active branches:", &self.branches);
        push_section(&mut lines, "Active workers:", &self.workers);
        assert(lines_view(lines@) == self@.lines());
        proof {
            lemma_render_empty_iff_idle(self@);
        }
        join(&lines)
    }
}

/// An added entry is mentioned, beside what was mentioned before.
pub proof fn lemma_push_mentions(entries: Seq<StatusEntryView>, entry: StatusEntryView, id: u128)
    ensures
        mentions(entries.push(entry), id) <==> (mentions(entries, id) || entry.id == id),
{
    let pushed = entries.push(entry);
    if mentions(entries, id) {
        let i = choose|i: int| 0 <= i < entries.len() && (#[trigger] entries[i]).id == id;
        assert(pushed[i].id == id);
    }
    if entry.id == id {
        assert(pushed[entries.len() as int].id == id);
    }
    if mentions(pushed, id) {
        let i = choose|i: int| 0 <= i < pushed.len() && (#[trigger] pushed[i]).id == id;
        if i < entries.len() {
            assert(entries[i].id == id);
        }
    }
}

/// Dropping the entries about one process leaves every other process
/// mentioned as before, and that process not at all.
pub proof fn lemma_without_mentions(entries: Seq<StatusEntryView>, id: u128, other: u128)
    ensures
        mentions(without(entries, id), other) <==> (other != id && mentions(entries, other)),
    decreases entries.len(),
{
    if entries.len() > 0 {
        let rest = entries.drop_last();
        let last = entries.last();
        lemma_without_mentions(rest, id, other);
        assert(rest.push(last) == entries);
        lemma_push_mentions(rest, last, other);
        if last.id != id {
            lemma_push_mentions(without(rest, id), last, other);
        }
    }
}

/// A new text changes nothing in which processes are mentioned.
pub proof fn lemma_with_text_mentions(
    entries: Seq<StatusEntryView>,
    id: u128,
    text: Seq<char>,
    other: u128,
)
    ensures
        mentions(with_text(entries, id, text), other) <==> mentions(entries, other),
{
    let changed = with_text(entries, id, text);
    if mentions(entries, other) {
        let i = choose|i: int| 0 <= i < entries.len() && (#[trigger] entries[i]).id == other;
        assert(changed[i].id == other);
    }
    if mentions(changed, other) {
        let i = choose|i: int| 0 <= i < changed.len() && (#[trigger] changed[i]).id == other;
        assert(entries[i].id == other);
    }
}

/// Joined lines are at least as long as the first of them.
pub proof fn lemma_join_covers_first(lines: Seq<Seq<char>>)
    requires
        lines.len() > 0,
    ensures
        join_lines(lines).len() >= lines[0].len(),
    decreases lines.len(),
{
    if lines.len() > 1 {
        lemma_join_covers_first(lines.drop_last());
    }
}

/// The summary is empty exactly where nothing is in flight.
pub proof fn lemma_render_empty_iff_idle(block: StatusBlockView)
    ensures
        block.render().len() == 0 <==> block.is_idle(),
{
    reveal_strlit("Active branches:");
    reveal_strlit("Active workers:");
    let lines = block.lines();
    if block.is_idle() {
        assert(lines =~= Seq::<Seq<char>>::empty());
    } else {
        if block.branches.len() > 0 {
            assert(lines[0] == "Active branches:"@);
        } else {
            assert(lines[0] == "Active workers:"@);
        }
        lemma_join_covers_first(lines);
    }
}

} // verus!
