//! The rotating log writer: renders entries under a swappable template,
//! counts the bytes of the active file, and decides when and how the file is
//! rotated into a fixed window of numbered archives.

use vstd::prelude::*;
use crate::settings::AppConfig;
use vstd::utf8::encode_utf8;

verus! {

/// Index of the most recent archive; older ones follow in order.
pub const ARCHIVE_BASE: u32 = 1;

/// The shape of a rendered line.
#[derive(Debug, Clone, Copy, PartialEq, Eq, Structural)]
pub enum Template {
    /// Timestamp, level and message, separated by ` | `.
    Diagnostic,
    /// The message alone: the payload already is a device log line.
    Passthrough,
}

/// Severity of an entry, shown by the diagnostic template.
#[derive(Debug, Clone, Copy, PartialEq, Eq, Structural)]
pub enum Level {
    Error,
    Warn,
    Info,
    Debug,
    Trace,
}

/// The level's name, padded or cut to five characters.
pub open spec fn level_label(level: Level) -> Seq<char> {
    match level {
        Level::Error => "ERROR"@,
        Level::Warn => "WARN "@,
        Level::Info => "INFO "@,
        Level::Debug => "DEBUG"@,
        Level::Trace => "TRACE"@,
    }
}

impl Level {
    pub fn label(&self) -> (r: &'static str)
        ensures
            r@ == level_label(*self),
    {
        match self {
            Level::Error => "ERROR",
            Level::Warn => "WARN ",
            Level::Info => "INFO ",
            Level::Debug => "DEBUG",
            Level::Trace => "TRACE",
        }
    }
}

/// The line that `template` makes of a message, ending in a newline.
pub open spec fn rendered(template: Template, level: Level, stamp: Seq<char>, message: Seq<char>) -> Seq<char> {
    match template {
        Template::Passthrough => message + "\n"@,
        Template::Diagnostic => stamp + " | "@ + level_label(level) + " | "@ + message + "\n"@,
    }
}

/// What a template puts before the message.
pub open spec fn decoration(template: Template, level: Level, stamp: Seq<char>) -> Seq<char> {
    match template {
        Template::Passthrough => Seq::empty(),
        Template::Diagnostic => stamp + " | "@ + level_label(level) + " | "@,
    }
}

/// Renders one entry; `stamp` is the time of the entry, already formatted.
pub fn render(template: Template, level: Level, stamp: &str, message: &str) -> (r: String)
    ensures
        r@ == rendered(template, level, stamp@, message@),
{
    match template {
        Template::Passthrough => {
            let mut line = String::from_str(message);
            line.append("\n");
            line
        },
        Template::Diagnostic => {
            let mut line = String::from_str(stamp);
            line.append(" | ");
            line.append(level.label());
            line.append(" | ");
            line.append(message);
            line.append("\n");
            line
        },
    }
}

/// The file operations of one rotation, to be carried out in this order:
/// delete archive `evict`; rename archive `i` to `i + 1` for `i` from
/// `shift` down to `ARCHIVE_BASE`; then move the active file to archive
/// `ARCHIVE_BASE` if `archive` holds, else delete it; and open a fresh,
/// empty active file.
#[derive(Debug, Clone, Copy, PartialEq, Eq, Structural)]
pub struct RotationPlan {
    pub evict: Option<u32>,
    pub shift: u32,
    pub archive: bool,
}

/// The plan for a rotation with `archived` archives present and at most
/// `keep` retained.
pub open spec fn rotation_plan(archived: nat, keep: nat) -> RotationPlan {
    if keep == 0 {
        RotationPlan { evict: None, shift: 0, archive: false }
    } else if archived >= keep {
        RotationPlan { evict: Some(keep as u32), shift: (keep - 1) as u32, archive: true }
    } else {
        RotationPlan { evict: None, shift: archived as u32, archive: true }
    }
}

/// The writer's state as a model. Files are identified by a generation
/// number: `active` is that of the active file, and `archives[i]` that of
/// archive `ARCHIVE_BASE + i`, most recent first.
pub struct WriterView {
    pub template: Template,
    pub trigger: nat,
    pub keep: nat,
    pub written: nat,
    pub active: nat,
    pub archives: Seq<nat>,
}

impl WriterView {
    /// Rotation happens as soon as the trigger is met, so the active file
    /// stays below it, and no more than `keep` archives exist.
    pub open spec fn wf(self) -> bool {
        &&& self.trigger > 0
        &&& self.written < self.trigger
        &&& self.archives.len() <= self.keep
    }
}

/// Archives after the active file `active` is rotated in: it becomes the
/// most recent, and the oldest beyond `keep` are gone.
pub open spec fn retained(archives: Seq<nat>, active: nat, keep: nat) -> Seq<nat> {
    if keep == 0 {
        seq![]
    } else if archives.len() < keep {
        seq![active] + archives
    } else {
        seq![active] + archives.take(keep - 1)
    }
}

/// One rotation: archive (or discard) the active file, open a fresh one.
pub open spec fn rotated(v: WriterView) -> WriterView {
    WriterView {
        written: 0,
        active: v.active + 1,
        archives: retained(v.archives, v.active, v.keep),
        ..v
    }
}

/// Whether writing `len` more bytes meets the size trigger.
pub open spec fn meets_trigger(v: WriterView, len: nat) -> bool {
    v.written + len >= v.trigger
}

/// The state once `len` more bytes are in the active file.
pub open spec fn grown(v: WriterView, len: nat) -> WriterView {
    WriterView { written: v.written + len, ..v }
}

/// The state after an append of `len` bytes.
pub open spec fn appended(v: WriterView, len: nat) -> WriterView {
    let w = grown(v, len);
    if meets_trigger(v, len) {
        rotated(w)
    } else {
        w
    }
}

/// The state after the template is swapped.
pub open spec fn reconfigured(v: WriterView, template: Template) -> WriterView {
    WriterView { template, ..v }
}

/// The state taken over from an earlier run, before its active file is
/// counted: an empty active file and the archives present within the
/// retention window, numbered as generations below the active one.
pub open spec fn resumed(template: Template, trigger: nat, keep: nat, present: nat) -> WriterView {
    let n = if present < keep {
        present
    } else {
        keep
    };
    WriterView {
        template,
        trigger,
        keep,
        written: 0,
        active: n,
        archives: Seq::new(n, |i: int| (n - 1 - i) as nat),
    }
}

/// One rendered entry and the rotation that writing it set off, if any.
pub struct Entry {
    pub line: String,
    pub rotation: Option<RotationPlan>,
}

/// Size-triggered, count-retained writer state, owned by the single sink.
pub struct RotatingWriter {
    template: Template,
    trigger: u64,
    keep: u32,
    written: u64,
    archived: u32,
    active: Ghost<nat>,
    archives: Ghost<Seq<nat>>,
}

impl View for RotatingWriter {
    type V = WriterView;

    closed spec fn view(&self) -> WriterView {
        WriterView {
            template: self.template,
            trigger: self.trigger as nat,
            keep: self.keep as nat,
            written: self.written as nat,
            active: self.active@,
            archives: self.archives@,
        }
    }
}

impl RotatingWriter {
    pub closed spec fn wf(&self) -> bool {
        &&& self@.wf()
        &&& self.archived == self.archives@.len()
    }

    /// A writer with an empty active file and no archives.
    pub fn new(settings: &AppConfig, template: Template) -> (r: RotatingWriter)
        requires
            settings.valid(),
        ensures
            r.wf(),
            r@.wf(),
            r@.template == template,
            r@.trigger == settings.log_max_size_mb * 1_000_000,
            r@.keep == settings.log_history_to_keep,
            r@.written == 0,
            r@.active == 0,
            r@.archives == Seq::<nat>::empty(),
    {
        RotatingWriter {
            template,
            trigger: settings.trigger_bytes(),
            keep: settings.log_history_to_keep,
            written: 0,
            archived: 0,
            active: Ghost(0),
            archives: Ghost(Seq::empty()),
        }
    }

    /// A writer that takes over files left by an earlier run: an active file
    /// of `active_bytes` bytes and `archives_present` archives numbered from
    /// `ARCHIVE_BASE` on. Archives beyond the retention window are left out
    /// of the count. An active file already at the trigger is rotated at
    /// once, and the plan for that rotation is returned with the writer.
    pub fn resume(settings: &AppConfig, template: Template, active_bytes: u64, archives_present: u32) -> (r: (
        RotatingWriter,
        Option<RotationPlan>,
    ))
        requires
            settings.valid(),
        ensures
            r.0.wf(),
            r.0@.wf(),
            r.0@ == appended(
                resumed(
                    template,
                    (settings.log_max_size_mb * 1_000_000) as nat,
                    settings.log_history_to_keep as nat,
                    archives_present as nat,
                ),
                active_bytes as nat,
            ),
            r.1 is Some <==> active_bytes >= settings.log_max_size_mb * 1_000_000,
            r.1 matches Some(p) ==> p == rotation_plan(
                resumed(
                    template,
                    (settings.log_max_size_mb * 1_000_000) as nat,
                    settings.log_history_to_keep as nat,
                    archives_present as nat,
                ).archives.len(),
                settings.log_history_to_keep as nat,
            ),
    {
        let keep = settings.log_history_to_keep;
        let archived = if archives_present < keep {
            archives_present
        } else {
            keep
        };
        let mut w = RotatingWriter {
            template,
            trigger: settings.trigger_bytes(),
            keep,
            written: 0,
            archived,
            active: Ghost(archived as nat),
            archives: Ghost(Seq::new(archived as nat, |i: int| (archived - 1 - i) as nat)),
        };
        assert(w@ == resumed(
            template,
            (settings.log_max_size_mb * 1_000_000) as nat,
            keep as nat,
            archives_present as nat,
        ));
        let plan = w.append(active_bytes);
        (w, plan)
    }

    pub fn template(&self) -> (r: Template)
        ensures
            r == self@.template,
    {
        self.template
    }

    /// Bytes written to the active file since it was opened.
    pub fn written(&self) -> (r: u64)
        ensures
            r == self@.written,
    {
        self.written
    }

    /// Number of archives present.
    pub fn archived(&self) -> (r: u32)
        requires
            self.wf(),
        ensures
            r == self@.archives.len(),
    {
        self.archived
    }

    /// Swaps the template; the active file and counters are untouched.
    pub fn reconfigure(&mut self, template: Template)
        requires
            old(self).wf(),
        ensures
            final(self).wf(),
            final(self)@.wf(),
            final(self)@ == reconfigured(old(self)@, template),
    {
        self.template = template;
    }

    /// Accounts for `len` bytes written to the active file. When the count
    /// meets the trigger the file is rotated at once, and the plan returned
    /// says which file operations carry the rotation out.
    pub fn append(&mut self, len: u64) -> (r: Option<RotationPlan>)
        requires
            old(self).wf(),
        ensures
            final(self).wf(),
            final(self)@.wf(),
            final(self)@ == appended(old(self)@, len as nat),
            r is Some <==> meets_trigger(old(self)@, len as nat),
            r matches Some(p) ==> p == rotation_plan(old(self)@.archives.len(), old(self)@.keep),
    {
        if len >= self.trigger - self.written {
            let plan = if self.keep == 0 {
                RotationPlan { evict: None, shift: 0, archive: false }
            } else if self.archived >= self.keep {
                RotationPlan { evict: Some(self.keep), shift: self.keep - 1, archive: true }
            } else {
                RotationPlan { evict: None, shift: self.archived, archive: true }
            };
            self.archives = Ghost(retained(self.archives@, self.active@, self.keep as nat));
            self.active = Ghost(self.active@ + 1);
            if self.keep > 0 && self.archived < self.keep {
                self.archived = self.archived + 1;
            }
            self.written = 0;
            assert(self@ == appended(old(self)@, len as nat));
            Some(plan)
        } else {
            self.written = self.written + len;
            assert(self@ == appended(old(self)@, len as nat));
            None
        }
    }

    /// Renders a message under the current template and accounts for the
    /// bytes of the rendered line.
    pub fn write_entry(&mut self, level: Level, stamp: &str, message: &str) -> (r: Entry)
        requires
            old(self).wf(),
        ensures
            final(self).wf(),
            final(self)@.wf(),
            r.line@ == rendered(old(self)@.template, level, stamp@, message@),
            final(self)@ == appended(old(self)@, encode_utf8(r.line@).len()),
            r.rotation is Some <==> meets_trigger(old(self)@, encode_utf8(r.line@).len()),
            r.rotation matches Some(p) ==> p == rotation_plan(
                old(self)@.archives.len(),
                old(self)@.keep,
            ),
    {
        let line = render(self.template, level, stamp, message);
        let len = line.as_str().as_bytes().len();
        let rotation = self.append(len as u64);
        Entry { line, rotation }
    }
}

/// `n` rotations in a row.
pub open spec fn rotated_times(v: WriterView, n: nat) -> WriterView
    decreases n,
{
    if n == 0 {
        v
    } else {
        rotated(rotated_times(v, (n - 1) as nat))
    }
}

/// Swapping in the same template twice leaves the writer exactly as swapping
/// it in once, so every later entry renders, counts and rotates identically.
pub proof fn lemma_reconfigure_idempotent(
    v: WriterView,
    template: Template,
    level: Level,
    stamp: Seq<char>,
    message: Seq<char>,
    len: nat,
)
    ensures
        reconfigured(reconfigured(v, template), template) == reconfigured(v, template),
        rendered(reconfigured(reconfigured(v, template), template).template, level, stamp, message)
            == rendered(reconfigured(v, template).template, level, stamp, message),
        appended(reconfigured(reconfigured(v, template), template), len) == appended(
            reconfigured(v, template),
            len,
        ),
{
}

/// An append that brings the byte count from below the trigger to at or
/// above it sets off exactly one rotation, after which the active file is
/// empty; an append that stays below the trigger sets off none.
pub proof fn lemma_rotation_boundary(v: WriterView, len: nat)
    requires
        v.wf(),
    ensures
        v.written + len >= v.trigger ==> appended(v, len) == rotated_times(grown(v, len), 1),
        v.written + len >= v.trigger ==> appended(v, len).written == 0,
        v.written + len >= v.trigger ==> appended(v, len).active == v.active + 1,
        v.written + len < v.trigger ==> appended(v, len) == grown(v, len),
        appended(v, len).wf(),
{
    let w = grown(v, len);
    assert(rotated_times(w, 1) == rotated(rotated_times(w, 0)));
}

/// After `n` rotations the active generation has advanced by `n`, and the
/// archives hold the `min(n, keep)` generations just before it, newest first.
proof fn lemma_rotations_window(v: WriterView, n: nat)
    requires
        v.archives.len() == 0,
    ensures
        rotated_times(v, n).active == v.active + n,
        rotated_times(v, n).keep == v.keep,
        rotated_times(v, n).archives.len() == (if n < v.keep {
            n
        } else {
            v.keep
        }),
        forall|i: int|
            0 <= i < rotated_times(v, n).archives.len() ==> rotated_times(v, n).archives[i] == v.active
                + n - 1 - i,
    decreases n,
{
    if n > 0 {
        let m = (n - 1) as nat;
        lemma_rotations_window(v, m);
        let u = rotated_times(v, m);
        let r = rotated_times(v, n);
        assert(r == rotated(u));
        assert forall|i: int| 0 <= i < r.archives.len() implies r.archives[i] == v.active + n - 1
            - i by {
            if i > 0 {
                assert(r.archives[i] == u.archives[i - 1]);
            }
        }
    }
}

/// With `keep` archives retained, `keep + 1` rotations of a writer that has
/// no archives leave exactly `keep` archives, and the oldest file rotated
/// out is gone.
pub proof fn lemma_retention_boundary(v: WriterView)
    requires
        v.archives.len() == 0,
    ensures
        rotated_times(v, v.keep + 1).archives.len() == v.keep,
        !rotated_times(v, v.keep + 1).archives.contains(v.active),
{
    let n = v.keep + 1;
    lemma_rotations_window(v, n);
    let a = rotated_times(v, n).archives;
    assert forall|i: int| 0 <= i < a.len() implies a[i] != v.active by {}
}

} // verus!
