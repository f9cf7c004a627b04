//! The ordered flash sequence as a state machine: discover, open, erase,
//! transfer, validate, optionally boot, with its failure policy.  The caller
//! performs each returned action against the real device and reports the
//! outcome back; every decision in between is made, and specified, here.

use vstd::prelude::*;

use crate::codec::{boot_command_bytes, encode_frame_exact, frame_bytes};
use crate::commands::{
    ap_flag_payload, ap_flag_payload_bytes, erase_payload, erase_payload_bytes,
    write_memory_payload, write_memory_payload_bytes, AP2FlashError, AP2Target,
};
use crate::transfer::{build_padded_chunk, chunk_size, chunk_size_of, padded_chunk_at};

verus! {

/// One flashing job: where the image goes and whether to reboot afterwards.
/// The image bytes themselves are handed to the sequencer separately.
#[derive(Debug, Copy, Clone, PartialEq, Eq, Structural)]
pub struct FlashJob {
    pub target: AP2Target,
    pub base: u32,
    pub boot: bool,
}

/// Where a flashing run stands.
#[derive(Debug, Copy, Clone, PartialEq, Eq, Structural)]
pub enum FlashStage {
    Discovering,
    Opening,
    Erasing,
    Transferring,
    Validating,
    Booting,
    Done,
    Failed(AP2FlashError),
}

/// What the caller reports back after carrying out an action.
#[derive(Debug, Copy, Clone, PartialEq, Eq, Structural)]
pub enum FlashEvent {
    /// One enumeration of HID devices: how many candidates matched the
    /// vendor, and how many of those are flashable.
    Scanned { vendor_matches: usize, flashable: usize },
    /// Whether opening a handle to the flashable device succeeded.
    Opened { ok: bool },
    /// Whether the last report went out without a transport error.  The
    /// device sends no acknowledgement: success means only that the write
    /// (and the following opaque reply read) did not fail at the transport.
    ReportSent { ok: bool },
}

/// What the caller must do next.
#[derive(Debug)]
pub enum FlashAction {
    /// Tell the operator to re-enter programming mode, wait ten seconds,
    /// enumerate again, and report a fresh `Scanned` event.
    PromptWait,
    /// Open a handle to the one flashable device and report `Opened`.
    Open,
    /// Write this 65-byte report, read the 64-byte reply, report
    /// `ReportSent`.
    SendReport(Vec<u8>),
    /// Write these bytes exactly as they are, unpadded, and report
    /// `ReportSent`.
    SendRaw(Vec<u8>),
    /// The run is over; `stage` tells how it ended.
    Finished,
}

/// The mathematical state of a flashing run.
#[verifier::ext_equal]
pub struct FlashModel {
    pub job: FlashJob,
    pub image: Seq<u8>,
    pub stage: FlashStage,
    /// Image bytes already covered by issued write commands.
    pub offset: int,
    /// Whether the one discovery retry has been spent.
    pub retried: bool,
    /// Whether the erase command was acknowledged as sent.
    pub erased: bool,
    /// Addresses of chunk writes that failed and were skipped over.
    pub warnings: Seq<u32>,
}

/// The mathematical shape of an action.
pub enum ActionModel {
    PromptWait,
    Open,
    SendReport(Seq<u8>),
    SendRaw(Seq<u8>),
    Finished,
}

impl View for FlashAction {
    type V = ActionModel;

    open spec fn view(&self) -> ActionModel {
        match self {
            FlashAction::PromptWait => ActionModel::PromptWait,
            FlashAction::Open => ActionModel::Open,
            FlashAction::SendReport(v) => ActionModel::SendReport(v@),
            FlashAction::SendRaw(v) => ActionModel::SendRaw(v@),
            FlashAction::Finished => ActionModel::Finished,
        }
    }
}

/// The report that erases flash at the job's base address.
pub open spec fn erase_report_bytes(job: FlashJob) -> Seq<u8> {
    frame_bytes(job.target, erase_payload_bytes(job.base))
}

/// The report that writes the chunk starting at image offset `offset`.
pub open spec fn chunk_report_bytes(job: FlashJob, image: Seq<u8>, offset: int) -> Seq<u8> {
    frame_bytes(
        job.target,
        write_memory_payload_bytes(
            (job.base + offset) as u32,
            padded_chunk_at(image, chunk_size_of(job.target), offset),
        ),
    )
}

/// The report that marks the written image valid: flag value 2 to the main
/// MCU, whatever the job's routing target was.
pub open spec fn validate_report_bytes() -> Seq<u8> {
    frame_bytes(AP2Target::McuMain, ap_flag_payload_bytes(2))
}

/// Which events a stage can be answered with.  Terminal stages take none.
pub open spec fn model_expects(m: FlashModel, e: FlashEvent) -> bool {
    match m.stage {
        FlashStage::Discovering => e is Scanned,
        FlashStage::Opening => e is Opened,
        FlashStage::Erasing => e is ReportSent,
        FlashStage::Transferring => e is ReportSent,
        FlashStage::Validating => e is ReportSent,
        FlashStage::Booting => e is ReportSent,
        FlashStage::Done => false,
        FlashStage::Failed(_) => false,
    }
}

/// Well-formedness of a run's state.
pub open spec fn model_wf(m: FlashModel) -> bool {
    &&& m.job.base + m.image.len() <= u32::MAX
    &&& 0 <= m.offset <= m.image.len()
    &&& (m.stage is Transferring ==> m.offset < m.image.len() && m.erased)
    &&& ((m.stage is Validating || m.stage is Booting || m.stage is Done) ==> m.erased
        && m.offset == m.image.len())
    &&& ((m.stage is Discovering || m.stage is Opening || m.stage is Erasing) ==> !m.erased
        && m.offset == 0 && m.warnings.len() == 0)
}

pub open spec fn with_stage(m: FlashModel, stage: FlashStage) -> FlashModel {
    FlashModel {
        job: m.job,
        image: m.image,
        stage,
        offset: m.offset,
        retried: m.retried,
        erased: m.erased,
        warnings: m.warnings,
    }
}

pub open spec fn failed(m: FlashModel, err: AP2FlashError) -> FlashModel {
    with_stage(m, FlashStage::Failed(err))
}

/// How many image bytes the chunk in flight covers.
pub open spec fn chunk_len_at(m: FlashModel) -> int {
    let c = chunk_size_of(m.job.target);
    if m.offset + c <= m.image.len() {
        c
    } else {
        m.image.len() - m.offset
    }
}

/// One step of the flash sequence: from a state and the event the caller
/// reports, to the next state and the next action.
pub open spec fn model_step(m: FlashModel, e: FlashEvent) -> (FlashModel, ActionModel)
    recommends
        model_wf(m),
        model_expects(m, e),
{
    match (m.stage, e) {
        (FlashStage::Discovering, FlashEvent::Scanned { vendor_matches, flashable }) => {
            if flashable == 1 {
                (with_stage(m, FlashStage::Opening), ActionModel::Open)
            } else if flashable > 1 {
                (failed(m, AP2FlashError::MultipleDeviceFound), ActionModel::Finished)
            } else if vendor_matches > 0 && !m.retried {
                (
                    FlashModel {
                        job: m.job,
                        image: m.image,
                        stage: m.stage,
                        offset: m.offset,
                        retried: true,
                        erased: m.erased,
                        warnings: m.warnings,
                    },
                    ActionModel::PromptWait,
                )
            } else {
                (failed(m, AP2FlashError::NoDeviceFound), ActionModel::Finished)
            }
        },
        (FlashStage::Opening, FlashEvent::Opened { ok }) => {
            if ok {
                (
                    with_stage(m, FlashStage::Erasing),
                    ActionModel::SendReport(erase_report_bytes(m.job)),
                )
            } else {
                (failed(m, AP2FlashError::USBError), ActionModel::Finished)
            }
        },
        (FlashStage::Erasing, FlashEvent::ReportSent { ok }) => {
            if ok {
                let m2 = FlashModel {
                    job: m.job,
                    image: m.image,
                    stage: m.stage,
                    offset: m.offset,
                    retried: m.retried,
                    erased: true,
                    warnings: m.warnings,
                };
                if m.image.len() == 0 {
                    (
                        with_stage(m2, FlashStage::Validating),
                        ActionModel::SendReport(validate_report_bytes()),
                    )
                } else {
                    (
                        with_stage(m2, FlashStage::Transferring),
                        ActionModel::SendReport(chunk_report_bytes(m.job, m.image, 0)),
                    )
                }
            } else {
                (failed(m, AP2FlashError::EraseError), ActionModel::Finished)
            }
        },
        (FlashStage::Transferring, FlashEvent::ReportSent { ok }) => {
            let w = if ok {
                m.warnings
            } else {
                m.warnings.push((m.job.base + m.offset) as u32)
            };
            let off2 = m.offset + chunk_len_at(m);
            let m2 = FlashModel {
                job: m.job,
                image: m.image,
                stage: m.stage,
                offset: off2,
                retried: m.retried,
                erased: m.erased,
                warnings: w,
            };
            if off2 < m.image.len() {
                (m2, ActionModel::SendReport(chunk_report_bytes(m.job, m.image, off2)))
            } else {
                (
                    with_stage(m2, FlashStage::Validating),
                    ActionModel::SendReport(validate_report_bytes()),
                )
            }
        },
        (FlashStage::Validating, FlashEvent::ReportSent { ok }) => {
            if !ok {
                (failed(m, AP2FlashError::FlashError), ActionModel::Finished)
            } else if m.job.boot {
                (with_stage(m, FlashStage::Booting), ActionModel::SendRaw(boot_command_bytes()))
            } else {
                (with_stage(m, FlashStage::Done), ActionModel::Finished)
            }
        },
        (FlashStage::Booting, FlashEvent::ReportSent { ok }) => {
            if ok {
                (with_stage(m, FlashStage::Done), ActionModel::Finished)
            } else {
                (failed(m, AP2FlashError::FlashError), ActionModel::Finished)
            }
        },
        _ => (m, ActionModel::Finished),
    }
}

/// The state a run begins in.
pub open spec fn initial_model(job: FlashJob, image: Seq<u8>) -> FlashModel {
    FlashModel {
        job,
        image,
        stage: FlashStage::Discovering,
        offset: 0,
        retried: false,
        erased: false,
        warnings: Seq::empty(),
    }
}

/// A step keeps the state well formed and never touches the job or the
/// image.
pub proof fn lemma_step_preserves_wf(m: FlashModel, e: FlashEvent)
    requires
        model_wf(m),
        model_expects(m, e),
    ensures
        model_wf(model_step(m, e).0),
        model_step(m, e).0.job == m.job,
        model_step(m, e).0.image == m.image,
{
}

/// A report that writes program state: a write-memory or a
/// write-validity-flag command under the firmware category.
pub open spec fn is_program_write_report(f: Seq<u8>) -> bool {
    f.len() == 65 && f[9] == 2 && (f[10] == 0x31 || f[10] == 0x32)
}

/// An action that sends such a report.
pub open spec fn writes_program(a: ActionModel) -> bool {
    a matches ActionModel::SendReport(f) && is_program_write_report(f)
}

/// A single step issues a write-memory or validity-flag report only when the
/// erase has already been acknowledged, or the step itself is the successful
/// erase acknowledgement; and that acknowledgement is the one thing that
/// ever sets `erased`.
pub proof fn lemma_write_needs_erase(m: FlashModel, e: FlashEvent)
    requires
        model_wf(m),
        model_expects(m, e),
    ensures
        writes_program(model_step(m, e).1) ==> m.erased || (m.stage is Erasing && e == (
        FlashEvent::ReportSent { ok: true })),
        model_step(m, e).0.erased <==> (m.erased || (m.stage is Erasing && e == (
        FlashEvent::ReportSent { ok: true }))),
{
    if m.stage is Opening && e == (FlashEvent::Opened { ok: true }) {
        let p = erase_payload_bytes(m.job.base);
        assert(p.len() == 6);
        crate::codec::lemma_frame_payload_index(m.job.target, p, 1);
        assert(p[1] == 0x43);
    }
}

/// A failed chunk write is recorded as a warning at the chunk's address and
/// the transfer continues; it never moves the run to `Failed`.
pub proof fn lemma_chunk_failure_continues(m: FlashModel, e: FlashEvent)
    requires
        model_wf(m),
        m.stage is Transferring,
        e == (FlashEvent::ReportSent { ok: false }),
    ensures
        !(model_step(m, e).0.stage is Failed),
        model_step(m, e).0.stage is Transferring || model_step(m, e).0.stage is Validating,
        model_step(m, e).0.warnings == m.warnings.push((m.job.base + m.offset) as u32),
{
}

/// A failed erase aborts the run at once: no write is issued over flash in
/// an unknown state.
pub proof fn lemma_erase_failure_aborts(m: FlashModel, e: FlashEvent)
    requires
        model_wf(m),
        m.stage is Erasing,
        e == (FlashEvent::ReportSent { ok: false }),
    ensures
        model_step(m, e).0.stage == FlashStage::Failed(AP2FlashError::EraseError),
        model_step(m, e).1 is Finished,
{
}

/// The boot command is the only report ever sent raw: it is the fixed short
/// frame, never a padded encoding, and it goes out only after a successful
/// validate of a job that asked for a boot.
pub proof fn lemma_boot_is_raw_after_validate(m: FlashModel, e: FlashEvent)
    requires
        model_wf(m),
        model_expects(m, e),
    ensures
        model_step(m, e).1 matches ActionModel::SendRaw(b) ==> b == boot_command_bytes()
            && m.stage is Validating && m.job.boot && e == (FlashEvent::ReportSent { ok: true })
            && model_step(m, e).0.stage is Booting,
{
}

/// The wait-and-retry prompt is shown only when vendor-matching but not
/// flashable devices exist, and only once per run.
pub proof fn lemma_prompt_needs_vendor_match(m: FlashModel, e: FlashEvent)
    requires
        model_wf(m),
        model_expects(m, e),
    ensures
        model_step(m, e).1 is PromptWait ==> m.stage is Discovering && !m.retried && (e matches
        FlashEvent::Scanned { vendor_matches, flashable } && vendor_matches > 0 && flashable == 0),
        model_step(m, e).1 is PromptWait ==> model_step(m, e).0.retried,
{
}

/// Once a run validates, every image byte has been covered by a write: the
/// bytes written equal the image length exactly.
pub proof fn lemma_transfer_covers_image(m: FlashModel)
    requires
        model_wf(m),
        m.stage is Validating || m.stage is Booting || m.stage is Done,
    ensures
        m.offset == m.image.len(),
{
}

/// The state after a whole sequence of reported events.
pub open spec fn run_model(m: FlashModel, events: Seq<FlashEvent>) -> FlashModel
    decreases events.len(),
{
    if events.len() == 0 {
        m
    } else {
        run_model(model_step(m, events[0]).0, events.skip(1))
    }
}

/// Each event of the sequence answers the stage the run is then in.
pub open spec fn valid_events(m: FlashModel, events: Seq<FlashEvent>) -> bool {
    forall|i: int|
        0 <= i < events.len() ==> model_expects(
            run_model(m, #[trigger] events.take(i)),
            events[i],
        )
}

/// In a valid run that starts before the erase, the run is erased only if
/// some step answered the erasing stage with a successful report result.
pub proof fn lemma_erased_origin(m: FlashModel, events: Seq<FlashEvent>)
    requires
        model_wf(m),
        valid_events(m, events),
        !m.erased,
    ensures
        model_wf(run_model(m, events)),
        run_model(m, events).erased ==> exists|j: int|
            0 <= j < events.len() && (run_model(m, #[trigger] events.take(j)).stage is Erasing)
                && events[j] == (FlashEvent::ReportSent { ok: true }),
    decreases events.len(),
{
    if events.len() == 0 {
    } else {
        let e0 = events[0];
        assert(events.take(0) =~= Seq::<FlashEvent>::empty());
        assert(model_expects(m, e0));
        let m1 = model_step(m, e0).0;
        lemma_step_preserves_wf(m, e0);
        lemma_write_needs_erase(m, e0);
        let rest = events.skip(1);
        assert forall|i: int| 0 <= i < rest.len() implies model_expects(
            run_model(m1, #[trigger] rest.take(i)),
            rest[i],
        ) by {
            assert(events.take(i + 1)[0] == e0);
            assert(events.take(i + 1).skip(1) =~= rest.take(i));
            assert(run_model(m, events.take(i + 1)) == run_model(m1, rest.take(i)));
            assert(model_expects(run_model(m, events.take(i + 1)), events[i + 1]));
        }
        if m1.erased {
            lemma_run_preserves_wf(m1, rest);
            if run_model(m, events).erased {
                assert(run_model(m, events.take(0)).stage is Erasing && events[0] == (
                FlashEvent::ReportSent { ok: true }));
            }
        } else {
            lemma_erased_origin(m1, rest);
            if run_model(m, events).erased {
                let j1 = choose|j: int|
                    0 <= j < rest.len() && (run_model(m1, #[trigger] rest.take(j)).stage
                        is Erasing) && rest[j] == (FlashEvent::ReportSent { ok: true });
                assert(events.take(j1 + 1)[0] == e0);
                assert(events.take(j1 + 1).skip(1) =~= rest.take(j1));
                assert(run_model(m, events.take(j1 + 1)) == run_model(m1, rest.take(j1)));
                assert(run_model(m, events.take(j1 + 1)).stage is Erasing && events[j1 + 1] == (
                FlashEvent::ReportSent { ok: true }));
            }
        }
    }
}

/// Well-formedness is kept along every valid run.
proof fn lemma_run_preserves_wf(m: FlashModel, events: Seq<FlashEvent>)
    requires
        model_wf(m),
        valid_events(m, events),
    ensures
        model_wf(run_model(m, events)),
    decreases events.len(),
{
    if events.len() == 0 {
    } else {
        let e0 = events[0];
        assert(events.take(0) =~= Seq::<FlashEvent>::empty());
        assert(model_expects(m, e0));
        let m1 = model_step(m, e0).0;
        lemma_step_preserves_wf(m, e0);
        let rest = events.skip(1);
        assert forall|i: int| 0 <= i < rest.len() implies model_expects(
            run_model(m1, #[trigger] rest.take(i)),
            rest[i],
        ) by {
            assert(events.take(i + 1)[0] == e0);
            assert(events.take(i + 1).skip(1) =~= rest.take(i));
            assert(run_model(m, events.take(i + 1)) == run_model(m1, rest.take(i)));
            assert(model_expects(run_model(m, events.take(i + 1)), events[i + 1]));
        }
        lemma_run_preserves_wf(m1, rest);
    }
}

/// The flash sequence never issues a write-memory or validity-flag report
/// before a successful erase: if the action produced at step `i` of a valid
/// run writes program state, then some step up to and including `i` answered
/// the erasing stage with a successful report result.
pub proof fn lemma_no_write_before_erase(
    job: FlashJob,
    image: Seq<u8>,
    events: Seq<FlashEvent>,
    i: int,
)
    requires
        job.base + image.len() <= u32::MAX,
        valid_events(initial_model(job, image), events),
        0 <= i < events.len(),
        writes_program(
            model_step(run_model(initial_model(job, image), events.take(i)), events[i]).1,
        ),
    ensures
        exists|j: int|
            0 <= j <= i && (run_model(initial_model(job, image), #[trigger] events.take(j)).stage
                is Erasing) && events[j] == (FlashEvent::ReportSent { ok: true }),
{
    let m0 = initial_model(job, image);
    let front = events.take(i);
    assert forall|k: int| 0 <= k < front.len() implies model_expects(
        run_model(m0, #[trigger] front.take(k)),
        front[k],
    ) by {
        assert(front.take(k) =~= events.take(k));
        assert(model_expects(run_model(m0, events.take(k)), events[k]));
    }
    lemma_erased_origin(m0, front);
    let mi = run_model(m0, front);
    assert(model_expects(mi, events[i]));
    lemma_write_needs_erase(mi, events[i]);
    if mi.erased {
        let j1 = choose|j: int|
            0 <= j < front.len() && (run_model(m0, #[trigger] front.take(j)).stage is Erasing)
                && front[j] == (FlashEvent::ReportSent { ok: true });
        assert(front.take(j1) =~= events.take(j1));
        assert(run_model(m0, events.take(j1)).stage is Erasing && events[j1] == (
        FlashEvent::ReportSent { ok: true }));
    } else {
        assert(mi.stage is Erasing && events[i] == (FlashEvent::ReportSent { ok: true }));
    }
}

/// The flash sequence, driven step by step by the caller.
pub struct FlashSequencer {
    pub job: FlashJob,
    pub image: Vec<u8>,
    pub stage: FlashStage,
    pub offset: usize,
    pub retried: bool,
    pub erased: bool,
    pub warnings: Vec<u32>,
}

impl View for FlashSequencer {
    type V = FlashModel;

    open spec fn view(&self) -> FlashModel {
        FlashModel {
            job: self.job,
            image: self.image@,
            stage: self.stage,
            offset: self.offset as int,
            retried: self.retried,
            erased: self.erased,
            warnings: self.warnings@,
        }
    }
}

fn chunk_report(job: FlashJob, image: &Vec<u8>, offset: usize) -> (r: Vec<u8>)
    requires
        offset < image@.len(),
        job.base + image@.len() <= u32::MAX,
    ensures
        r@ == chunk_report_bytes(job, image@, offset as int),
{
    let c = chunk_size(job.target);
    let chunk = build_padded_chunk(image, offset, c);
    let payload = write_memory_payload(job.base + offset as u32, &chunk);
    encode_frame_exact(job.target, &payload)
}

fn validate_report() -> (r: Vec<u8>)
    ensures
        r@ == validate_report_bytes(),
{
    let payload = ap_flag_payload(2);
    encode_frame_exact(AP2Target::McuMain, &payload)
}

impl FlashSequencer {
    /// Begins a run: the caller should now enumerate HID devices and report
    /// a `Scanned` event.
    pub fn start(job: FlashJob, image: Vec<u8>) -> (s: FlashSequencer)
        requires
            job.base + image@.len() <= u32::MAX,
        ensures
            s@ == initial_model(job, image@),
            model_wf(s@),
    {
        let s = FlashSequencer {
            job,
            image,
            stage: FlashStage::Discovering,
            offset: 0,
            retried: false,
            erased: false,
            warnings: Vec::new(),
        };
        proof {
            assert(s@ =~= initial_model(job, s.image@));
        }
        s
    }

    /// Feeds the outcome of the previous action in and returns the next
    /// action, exactly as `model_step` describes.
    pub fn step(&mut self, e: FlashEvent) -> (a: FlashAction)
        requires
            model_wf(old(self)@),
            model_expects(old(self)@, e),
        ensures
            final(self)@ == model_step(old(self)@, e).0,
            a@ == model_step(old(self)@, e).1,
            model_wf(final(self)@),
    {
        proof {
            lemma_step_preserves_wf(self@, e);
        }
        match (self.stage, e) {
            (FlashStage::Discovering, FlashEvent::Scanned { vendor_matches, flashable }) => {
                if flashable == 1 {
                    self.stage = FlashStage::Opening;
                    FlashAction::Open
                } else if flashable > 1 {
                    self.stage = FlashStage::Failed(AP2FlashError::MultipleDeviceFound);
                    FlashAction::Finished
                } else if vendor_matches > 0 && !self.retried {
                    self.retried = true;
                    FlashAction::PromptWait
                } else {
                    self.stage = FlashStage::Failed(AP2FlashError::NoDeviceFound);
                    FlashAction::Finished
                }
            },
            (FlashStage::Opening, FlashEvent::Opened { ok }) => {
                if ok {
                    self.stage = FlashStage::Erasing;
                    let payload = erase_payload(self.job.base);
                    FlashAction::SendReport(encode_frame_exact(self.job.target, &payload))
                } else {
                    self.stage = FlashStage::Failed(AP2FlashError::USBError);
                    FlashAction::Finished
                }
            },
            (FlashStage::Erasing, FlashEvent::ReportSent { ok }) => {
                if ok {
                    self.erased = true;
                    if self.image.len() == 0 {
                        self.stage = FlashStage::Validating;
                        FlashAction::SendReport(validate_report())
                    } else {
                        self.stage = FlashStage::Transferring;
                        FlashAction::SendReport(chunk_report(self.job, &self.image, 0))
                    }
                } else {
                    self.stage = FlashStage::Failed(AP2FlashError::EraseError);
                    FlashAction::Finished
                }
            },
            (FlashStage::Transferring, FlashEvent::ReportSent { ok }) => {
                let c = chunk_size(self.job.target);
                let remaining = self.image.len() - self.offset;
                let k = if c <= remaining {
                    c
                } else {
                    remaining
                };
                if !ok {
                    self.warnings.push(self.job.base + self.offset as u32);
                }
                self.offset = self.offset + k;
                if self.offset < self.image.len() {
                    FlashAction::SendReport(chunk_report(self.job, &self.image, self.offset))
                } else {
                    self.stage = FlashStage::Validating;
                    FlashAction::SendReport(validate_report())
                }
            },
            (FlashStage::Validating, FlashEvent::ReportSent { ok }) => {
                if !ok {
                    self.stage = FlashStage::Failed(AP2FlashError::FlashError);
                    FlashAction::Finished
                } else if self.job.boot {
                    self.stage = FlashStage::Booting;
                    FlashAction::SendRaw(crate::codec::boot_command())
                } else {
                    self.stage = FlashStage::Done;
                    FlashAction::Finished
                }
            },
            (FlashStage::Booting, FlashEvent::ReportSent { ok }) => {
                if ok {
                    self.stage = FlashStage::Done;
                    FlashAction::Finished
                } else {
                    self.stage = FlashStage::Failed(AP2FlashError::FlashError);
                    FlashAction::Finished
                }
            },
            _ => {
                proof {
                    assert(false);
                }
                vstd::pervasive::unreached()
            },
        }
    }
}

} // verus!
