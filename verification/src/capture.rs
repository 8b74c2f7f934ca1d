//! Life cycle of the event registrations inside an instrumented process.
//!
//! A [`CaptureContext`] records the module of the process, the label under
//! which its events are reported, and the handles of the two registrations.
//! Installing and releasing a registration is the caller's work: the context
//! decides what is to be done ([`CaptureContext::start_capture`],
//! [`CaptureContext::stop_capture`]) and is told how it went
//! ([`CaptureContext::complete_start`], [`CaptureContext::complete_stop`]).
//! Between the two the handles are taken, and every other start or stop is
//! answered with `Busy`.

use crate::decimal::{decimal, lemma_decimal_is_frameable, push_decimal};
use crate::event::label_text;
use crate::frame::{has_terminator, lemma_join_keeps_frameable, lemma_terminator_is_nul};
use vstd::prelude::*;
use vstd::string::*;

verus! {

/// The reason code with which the host announces that the process attaches.
pub const PROCESS_ATTACH: u32 = 1;

/// The reason code with which the host announces that the process detaches.
pub const PROCESS_DETACH: u32 = 0;

/// Status of an exported call that did what it was asked.
pub const STATUS_OK: i32 = 0;

/// Status of an exported call that was refused: the handles are taken by
/// another operation, or the context is in no stage for it.
pub const STATUS_REFUSED: i32 = 1;

/// Status of an exported call whose pointer registration failed.
pub const STATUS_POINTER_FAILED: i32 = 2;

/// Status of an exported call whose window registration failed. When both
/// registrations failed the status is the sum of the two.
pub const STATUS_WINDOW_FAILED: i32 = 4;

/// The stages of a context, in the order in which they are passed.
#[derive(Debug, Clone, Copy, PartialEq, Eq, Structural)]
pub enum Phase {
    /// Nothing is known of the process yet.
    Detached,
    /// The module of the process is recorded; nothing is installed.
    Attached,
    /// The registrations were installed, as far as they could be.
    Hooked,
    /// Detached for good: the registrations are released or left to the
    /// operating system, and nothing will be installed again.
    Final,
}

/// The operation that holds the handles.
#[derive(Debug, Clone, Copy, PartialEq, Eq, Structural)]
pub enum Operation {
    Starting,
    Stopping,
}

/// The answer to a request to start capturing.
#[derive(Debug, Clone, Copy, PartialEq, Eq, Structural)]
pub enum StartDecision {
    /// Install both registrations for this module, then report the outcome
    /// with `complete_start`.
    Install { module: u64 },
    /// Another start or stop holds the handles.
    Busy,
    /// No module is recorded, or the context is detached for good.
    NotAttached,
    /// The registrations were installed before; nothing is to be done.
    AlreadyHooked,
}

/// The answer to a request to stop capturing.
#[derive(Debug, Clone, Copy, PartialEq, Eq, Structural)]
pub enum StopDecision {
    /// Release each handle that is present, the pointer registration first,
    /// then report the outcome with `complete_stop`.
    Release { pointer: Option<u64>, window: Option<u64> },
    /// Another start or stop holds the handles.
    Busy,
    /// Nothing was installed, so nothing is to be done.
    Nothing,
}

/// What became of a start, registration by registration.
#[derive(Debug, Clone, Copy, PartialEq, Eq, Structural)]
pub enum StartReport {
    /// The start is complete; each flag says whether that registration is
    /// installed.
    Installed { pointer: bool, window: bool },
    /// No start was under way; the handles were not recorded.
    NotStarting,
}

/// What became of a stop, registration by registration.
#[derive(Debug, Clone, Copy, PartialEq, Eq, Structural)]
pub enum StopReport {
    /// The stop is complete; each flag says whether a registration that was
    /// present could not be released.
    Released { pointer_failed: bool, window_failed: bool },
    /// No stop was under way.
    NotStopping,
}

/// What the host asks for with a reason code.
#[derive(Debug, Clone, Copy, PartialEq, Eq, Structural)]
pub enum HostCall {
    Attach,
    Detach,
    Other,
}

/// A [`CaptureContext`] as a value of the specification.
pub struct CaptureView {
    pub phase: Phase,
    pub module: Option<u64>,
    pub label: Option<Seq<char>>,
    pub pointer: Option<u64>,
    pub window: Option<u64>,
    pub pending: Option<Operation>,
}

impl CaptureView {
    /// The context of a process of which nothing is known.
    pub open spec fn initial() -> CaptureView {
        CaptureView {
            phase: Phase::Detached,
            module: None,
            label: None,
            pointer: None,
            window: None,
            pending: None,
        }
    }

    /// What holds of every context: a module is recorded exactly from the
    /// attachment on, handles are recorded only once the context was
    /// hooked, and an operation is under way only in the stage it belongs
    /// to.
    pub open spec fn wf(self) -> bool {
        &&& self.phase is Detached ==> self.module is None && self.label is None
        &&& self.phase is Attached || self.phase is Hooked ==> self.module is Some
        &&& self.pointer is Some || self.window is Some ==> self.phase is Hooked || self.phase
            is Final
        &&& match self.pending {
            Some(Operation::Starting) => self.phase is Attached,
            Some(Operation::Stopping) => self.phase is Hooked,
            None => true,
        }
    }

    /// Attaching records the module and the label once; every later call
    /// changes nothing.
    pub open spec fn attach(self, module: u64, label: Option<Seq<char>>) -> CaptureView {
        if self.phase is Detached {
            CaptureView { phase: Phase::Attached, module: Some(module), label, ..self }
        } else {
            self
        }
    }

    /// A request to start: granted once, in the attached stage, while no
    /// other operation holds the handles.
    pub open spec fn start(self) -> (CaptureView, StartDecision) {
        if self.pending is Some {
            (self, StartDecision::Busy)
        } else {
            match self.phase {
                Phase::Attached => (
                    CaptureView { pending: Some(Operation::Starting), ..self },
                    StartDecision::Install { module: self.module->0 },
                ),
                Phase::Hooked => (self, StartDecision::AlreadyHooked),
                _ => (self, StartDecision::NotAttached),
            }
        }
    }

    /// The end of a start: each registration that was installed is recorded,
    /// and a failed one leaves the other in place.
    pub open spec fn complete_start(self, pointer: Option<u64>, window: Option<u64>) -> (
        CaptureView,
        StartReport,
    ) {
        if self.pending == Some(Operation::Starting) {
            (
                CaptureView { phase: Phase::Hooked, pointer, window, pending: None, ..self },
                StartReport::Installed { pointer: pointer is Some, window: window is Some },
            )
        } else {
            (self, StartReport::NotStarting)
        }
    }

    /// A request to stop: hands out the handles that are held, or finds
    /// nothing to do.
    pub open spec fn stop(self) -> (CaptureView, StopDecision) {
        if self.pending is Some {
            (self, StopDecision::Busy)
        } else if self.phase is Hooked {
            (
                CaptureView { pending: Some(Operation::Stopping), ..self },
                StopDecision::Release { pointer: self.pointer, window: self.window },
            )
        } else {
            (self, StopDecision::Nothing)
        }
    }

    /// The end of a stop: both handles are forgotten, whether their release
    /// succeeded or not, and the context is detached for good.
    pub open spec fn complete_stop(self, pointer_released: bool, window_released: bool) -> (
        CaptureView,
        StopReport,
    ) {
        if self.pending == Some(Operation::Stopping) {
            (
                CaptureView {
                    phase: Phase::Final,
                    pointer: None,
                    window: None,
                    pending: None,
                    ..self
                },
                StopReport::Released {
                    pointer_failed: self.pointer is Some && !pointer_released,
                    window_failed: self.window is Some && !window_released,
                },
            )
        } else {
            (self, StopReport::NotStopping)
        }
    }

    /// The process unloads. Nothing is released and nothing recorded is
    /// touched: module, label and both handles stay as they are. The context
    /// only notes that it is detached for good, so that no later start or
    /// stop hands anything out.
    pub open spec fn detach(self) -> CaptureView {
        CaptureView { phase: Phase::Final, pending: None, ..self }
    }
}

/// What the host asks for with `reason`.
pub open spec fn host_call(reason: u32) -> HostCall {
    if reason == PROCESS_ATTACH {
        HostCall::Attach
    } else if reason == PROCESS_DETACH {
        HostCall::Detach
    } else {
        HostCall::Other
    }
}

/// The position of a stage in the life cycle.
pub open spec fn phase_rank(phase: Phase) -> nat {
    match phase {
        Phase::Detached => 0,
        Phase::Attached => 1,
        Phase::Hooked => 2,
        Phase::Final => 3,
    }
}

/// The status of a request alone: 0 when it was granted or nothing was to
/// be done, `STATUS_REFUSED` when it was refused. A granted request has its
/// final status from its report.
pub open spec fn start_status(decision: StartDecision) -> i32 {
    match decision {
        StartDecision::Install { .. } | StartDecision::AlreadyHooked => STATUS_OK,
        StartDecision::Busy | StartDecision::NotAttached => STATUS_REFUSED,
    }
}

/// The status of a request to stop alone: 0 when it was granted or nothing
/// was to be done, `STATUS_REFUSED` when the handles were taken. A granted
/// stop has its final status from its report.
pub open spec fn stop_status(decision: StopDecision) -> i32 {
    match decision {
        StopDecision::Busy => STATUS_REFUSED,
        _ => STATUS_OK,
    }
}

/// The status of an operation on the two registrations, handle by handle:
/// `STATUS_POINTER_FAILED`, `STATUS_WINDOW_FAILED`, their sum when both
/// failed, 0 when neither did.
pub open spec fn failure_status(pointer_failed: bool, window_failed: bool) -> i32 {
    if pointer_failed && window_failed {
        6
    } else if pointer_failed {
        STATUS_POINTER_FAILED
    } else if window_failed {
        STATUS_WINDOW_FAILED
    } else {
        STATUS_OK
    }
}

/// The status of a completed start: which registrations could not be
/// installed, or `STATUS_REFUSED` when no start was under way.
pub open spec fn start_report_status(report: StartReport) -> i32 {
    match report {
        StartReport::Installed { pointer, window } => failure_status(!pointer, !window),
        StartReport::NotStarting => STATUS_REFUSED,
    }
}

/// The status of a completed stop: which registrations could not be
/// released, or `STATUS_REFUSED` when no stop was under way.
pub open spec fn stop_report_status(report: StopReport) -> i32 {
    match report {
        StopReport::Released { pointer_failed, window_failed } => failure_status(
            pointer_failed,
            window_failed,
        ),
        StopReport::NotStopping => STATUS_REFUSED,
    }
}

/// Whether `part` is a run of consecutive characters of `whole`.
pub open spec fn is_part_of(part: Seq<char>, whole: Seq<char>) -> bool {
    exists|i: int, j: int| 0 <= i <= j <= whole.len() && part == #[trigger] whole.subrange(i, j)
}

/// Whether `label` can be the label of a program at `path`: no label at
/// all, or a part of the path.
pub open spec fn label_comes_from(label: Option<Seq<char>>, path: Option<Seq<char>>) -> bool {
    match label {
        Some(l) => path matches Some(p) && is_part_of(l, p),
        None => true,
    }
}

/// Every transition keeps a context well formed, and none moves it back to
/// an earlier stage.
pub proof fn lemma_life_cycle_advances(
    v: CaptureView,
    module: u64,
    label: Option<Seq<char>>,
    pointer: Option<u64>,
    window: Option<u64>,
    pointer_released: bool,
    window_released: bool,
)
    requires
        v.wf(),
    ensures
        CaptureView::initial().wf(),
        v.attach(module, label).wf(),
        v.start().0.wf(),
        v.complete_start(pointer, window).0.wf(),
        v.stop().0.wf(),
        v.complete_stop(pointer_released, window_released).0.wf(),
        v.detach().wf(),
        phase_rank(v.phase) <= phase_rank(v.attach(module, label).phase),
        phase_rank(v.phase) <= phase_rank(v.start().0.phase),
        phase_rank(v.phase) <= phase_rank(v.complete_start(pointer, window).0.phase),
        phase_rank(v.phase) <= phase_rank(v.stop().0.phase),
        phase_rank(v.phase) <= phase_rank(
            v.complete_stop(pointer_released, window_released).0.phase,
        ),
        phase_rank(v.phase) <= phase_rank(v.detach().phase),
{
}

/// A start is granted in the attached stage alone, so a start that follows
/// a start installs nothing: while the first is under way it is answered
/// with `Busy`, after it with `AlreadyHooked`, and either way the recorded
/// handles stay as they are.
pub proof fn lemma_start_is_not_repeated(v: CaptureView, pointer: Option<u64>, window: Option<u64>)
    requires
        v.wf(),
    ensures
        v.start().1 is Install <==> v.phase is Attached && v.pending is None,
        !(v.start().1 is Install) ==> v.start().0 == v,
        v.start().1 is Install ==> {
            let under_way = v.start().0;
            let hooked = under_way.complete_start(pointer, window).0;
            &&& under_way.start() == (under_way, StartDecision::Busy)
            &&& hooked.pointer == pointer && hooked.window == window
            &&& hooked.start() == (hooked, StartDecision::AlreadyHooked)
        },
{
}

/// A stop that finds no registration succeeds and releases nothing: in
/// every stage but the hooked one it changes nothing at all, and in the
/// hooked stage with both registrations absent it ends as a success
/// whatever is reported back.
pub proof fn lemma_stop_without_registration(
    v: CaptureView,
    pointer_released: bool,
    window_released: bool,
)
    requires
        v.wf(),
        v.pending is None,
        v.pointer is None,
        v.window is None,
    ensures
        stop_status(v.stop().1) == 0,
        !(v.phase is Hooked) ==> v.stop() == (v, StopDecision::Nothing),
        v.phase is Hooked ==> {
            &&& v.stop().1 == (StopDecision::Release { pointer: None, window: None })
            &&& stop_report_status(
                v.stop().0.complete_stop(pointer_released, window_released).1,
            ) == 0
        },
{
}

/// A handle is handed out for release once: after a stop is complete, or
/// after the process has detached, a stop finds nothing and a start is
/// refused. Detaching itself touches nothing that was recorded.
pub proof fn lemma_released_once(v: CaptureView, pointer_released: bool, window_released: bool)
    requires
        v.wf(),
    ensures
        v.stop().1 is Release ==> {
            let done = v.stop().0.complete_stop(pointer_released, window_released).0;
            &&& v.stop().1 == (StopDecision::Release { pointer: v.pointer, window: v.window })
            &&& done.stop() == (done, StopDecision::Nothing)
            &&& done.start() == (done, StartDecision::NotAttached)
        },
        v.detach().module == v.module,
        v.detach().label == v.label,
        v.detach().pointer == v.pointer,
        v.detach().window == v.window,
        v.detach().stop() == (v.detach(), StopDecision::Nothing),
        v.detach().start() == (v.detach(), StartDecision::NotAttached),
        v.detach().detach() == v.detach(),
{
}

/// Contention and failure are told apart: the status of an operation is 0
/// exactly when nothing failed, and where a registration failed it differs
/// from the status of a refused request. A start whose registrations both
/// failed ends hooked, with a status of its own.
pub proof fn lemma_status_tells_failures_apart(
    v: CaptureView,
    pointer: Option<u64>,
    window: Option<u64>,
    pointer_released: bool,
    window_released: bool,
)
    requires
        v.wf(),
    ensures
        start_status(StartDecision::Busy) == STATUS_REFUSED,
        stop_status(StopDecision::Busy) == STATUS_REFUSED,
        STATUS_REFUSED != STATUS_OK,
        v.pending == Some(Operation::Starting) ==> {
            let status = start_report_status(v.complete_start(pointer, window).1);
            &&& status == STATUS_OK <==> pointer is Some && window is Some
            &&& status != STATUS_REFUSED
            &&& pointer is None && window is None ==> status == 6
        },
        v.pending == Some(Operation::Stopping) ==> {
            let status = stop_report_status(
                v.complete_stop(pointer_released, window_released).1,
            );
            &&& status == STATUS_OK <==> (v.pointer is Some ==> pointer_released) && (v.window
                is Some ==> window_released)
            &&& status != STATUS_REFUSED
        },
{
}

/// A part of a text that can be framed can be framed.
pub proof fn lemma_part_is_frameable(part: Seq<char>, whole: Seq<char>)
    requires
        is_part_of(part, whole),
        !has_terminator(whole),
    ensures
        !has_terminator(part),
{
    lemma_terminator_is_nul(part);
    lemma_terminator_is_nul(whole);
    let (i, j) = choose|i: int, j: int|
        0 <= i <= j <= whole.len() && part == #[trigger] whole.subrange(i, j);
    if part.contains('\0') {
        let k = choose|k: int| 0 <= k < part.len() && part[k] == '\0';
        assert(whole[i + k] == '\0');
    }
}

/// The line that announces an attached process: the module, the process
/// identifier and, if it is known, the path of the program.
pub open spec fn loaded_message(module: u64, process_id: u32, path: Option<Seq<char>>) -> Seq<
    char,
> {
    let head = "We've loaded the library. as instance "@ + decimal(module as nat) + " (pid: "@
        + decimal(process_id as nat) + ")"@;
    match path {
        Some(p) => head + " from \""@ + p + "\""@,
        None => head,
    }
}

/// The line that announces an attached process can be framed whenever the
/// path of the program can.
pub proof fn lemma_loaded_message_is_frameable(
    module: u64,
    process_id: u32,
    path: Option<Seq<char>>,
)
    requires
        path matches Some(p) ==> !has_terminator(p),
    ensures
        !has_terminator(loaded_message(module, process_id, path)),
{
    reveal_strlit("We've loaded the library. as instance ");
    reveal_strlit(" (pid: ");
    reveal_strlit(")");
    reveal_strlit(" from \"");
    reveal_strlit("\"");
    lemma_terminator_is_nul("We've loaded the library. as instance "@);
    lemma_terminator_is_nul(" (pid: "@);
    lemma_terminator_is_nul(")"@);
    lemma_terminator_is_nul(" from \""@);
    lemma_terminator_is_nul("\""@);
    lemma_decimal_is_frameable(module as int);
    lemma_decimal_is_frameable(process_id as int);
    let a = "We've loaded the library. as instance "@ + decimal(module as nat);
    lemma_join_keeps_frameable(
        "We've loaded the library. as instance "@,
        decimal(module as nat),
    );
    let b = a + " (pid: "@;
    lemma_join_keeps_frameable(a, " (pid: "@);
    let c = b + decimal(process_id as nat);
    lemma_join_keeps_frameable(b, decimal(process_id as nat));
    let head = c + ")"@;
    lemma_join_keeps_frameable(c, ")"@);
    if let Some(p) = path {
        lemma_join_keeps_frameable(head, " from \""@);
        lemma_join_keeps_frameable(head + " from \""@, p);
        lemma_join_keeps_frameable(head + " from \""@ + p, "\""@);
    }
}

/// The text of an optional owned label.
pub open spec fn owned_label_text(label: Option<String>) -> Option<Seq<char>> {
    match label {
        Some(l) => Some(l@),
        None => None,
    }
}

/// The capture state of one instrumented process.
pub struct CaptureContext {
    phase: Phase,
    module: Option<u64>,
    label: Option<String>,
    pointer: Option<u64>,
    window: Option<u64>,
    pending: Option<Operation>,
}

impl View for CaptureContext {
    type V = CaptureView;

    closed spec fn view(&self) -> CaptureView {
        CaptureView {
            phase: self.phase,
            module: self.module,
            label: owned_label_text(self.label),
            pointer: self.pointer,
            window: self.window,
            pending: self.pending,
        }
    }
}

/// `Path::file_name` of `path`, as text: the last component of the path, if
/// it has one. Which component that is depends on the platform's path
/// syntax; on every platform it is a part of the path as it was given.
#[verifier::external_body]
fn file_name_of(path: &str) -> (name: Option<String>)
    ensures
        name matches Some(n) ==> is_part_of(n@, path@),
{
    match std::path::Path::new(path).file_name() {
        Some(name) => Some(name.to_string_lossy().into_owned()),
        None => None,
    }
}

/// Writes the line that announces an attached process.
pub fn write_loaded_message(module: u64, process_id: u32, program_path: Option<&str>) -> (message:
    String)
    ensures
        message@ == loaded_message(module, process_id, label_text(program_path)),
{
    let mut message = String::from_str("We've loaded the library. as instance ");
    push_decimal(&mut message, module);
    message.append(" (pid: ");
    push_decimal(&mut message, process_id as u64);
    message.append(")");
    let ghost head = message@;
    assert(head =~= "We've loaded the library. as instance "@ + decimal(module as nat) + " (pid: "@
        + decimal(process_id as nat) + ")"@);
    match program_path {
        Some(p) => {
            message.append(" from \"");
            message.append(p);
            message.append("\"");
            assert(message@ =~= head + " from \""@ + p@ + "\""@);
        },
        None => {},
    }
    message
}

/// Tells the host's reason codes apart.
pub fn classify_host_call(reason: u32) -> (call: HostCall)
    ensures
        call == host_call(reason),
{
    if reason == PROCESS_ATTACH {
        HostCall::Attach
    } else if reason == PROCESS_DETACH {
        HostCall::Detach
    } else {
        HostCall::Other
    }
}

/// The status code of a start decision.
pub fn start_status_code(decision: StartDecision) -> (code: i32)
    ensures
        code == start_status(decision),
{
    match decision {
        StartDecision::Install { .. } | StartDecision::AlreadyHooked => STATUS_OK,
        StartDecision::Busy | StartDecision::NotAttached => STATUS_REFUSED,
    }
}

/// The status code of a stop decision.
pub fn stop_status_code(decision: StopDecision) -> (code: i32)
    ensures
        code == stop_status(decision),
{
    match decision {
        StopDecision::Busy => STATUS_REFUSED,
        _ => STATUS_OK,
    }
}

/// The status code for the registrations that failed.
fn failure_status_code(pointer_failed: bool, window_failed: bool) -> (code: i32)
    ensures
        code == failure_status(pointer_failed, window_failed),
{
    let mut code: i32 = STATUS_OK;
    if pointer_failed {
        code = code + STATUS_POINTER_FAILED;
    }
    if window_failed {
        code = code + STATUS_WINDOW_FAILED;
    }
    code
}

/// The status code of a completed start.
pub fn start_report_status_code(report: StartReport) -> (code: i32)
    ensures
        code == start_report_status(report),
{
    match report {
        StartReport::Installed { pointer, window } => failure_status_code(!pointer, !window),
        StartReport::NotStarting => STATUS_REFUSED,
    }
}

/// The status code of a completed stop.
pub fn stop_report_status_code(report: StopReport) -> (code: i32)
    ensures
        code == stop_report_status(report),
{
    match report {
        StopReport::Released { pointer_failed, window_failed } => failure_status_code(
            pointer_failed,
            window_failed,
        ),
        StopReport::NotStopping => STATUS_REFUSED,
    }
}

impl CaptureContext {
    #[verifier::type_invariant]
    spec fn inv(self) -> bool {
        self@.wf()
    }

    /// A context of which nothing is known yet.
    pub fn new() -> (context: CaptureContext)
        ensures
            context@ == CaptureView::initial(),
    {
        CaptureContext {
            phase: Phase::Detached,
            module: None,
            label: None,
            pointer: None,
            window: None,
            pending: None,
        }
    }

    /// The stage the context is in.
    pub fn phase(&self) -> (phase: Phase)
        ensures
            phase == self@.phase,
    {
        self.phase
    }

    /// The module that was recorded at the attachment.
    pub fn module(&self) -> (module: Option<u64>)
        ensures
            module == self@.module,
    {
        self.module
    }

    /// The label under which the events of the process are reported.
    pub fn label(&self) -> (label: Option<&str>)
        ensures
            label_text(label) == self@.label,
    {
        match &self.label {
            Some(l) => Some(l.as_str()),
            None => None,
        }
    }

    /// The handle of the pointer registration, as it was last recorded.
    pub fn pointer_handle(&self) -> (handle: Option<u64>)
        ensures
            handle == self@.pointer,
    {
        self.pointer
    }

    /// The handle of the window registration, as it was last recorded.
    pub fn window_handle(&self) -> (handle: Option<u64>)
        ensures
            handle == self@.window,
    {
        self.window
    }

    /// The operation that holds the handles, if one is under way.
    pub fn pending(&self) -> (operation: Option<Operation>)
        ensures
            operation == self@.pending,
    {
        self.pending
    }

    /// Records the module of the process and the label of its events. The
    /// first call wins; every later one changes nothing.
    pub fn record_attach(&mut self, module: u64, label: Option<String>)
        ensures
            final(self)@ == old(self)@.attach(module, owned_label_text(label)),
            final(self)@.wf(),
    {
        proof {
            use_type_invariant(&*self);
        }
        match self.phase {
            Phase::Detached => {
                *self = CaptureContext {
                    phase: Phase::Attached,
                    module: Some(module),
                    label,
                    pointer: None,
                    window: None,
                    pending: None,
                };
            },
            _ => {},
        }
    }

    /// Attaches the process: records its module, takes the file name of
    /// `program_path` as the label of its events, and returns the line that
    /// announces it. Always succeeds; a call after the first changes
    /// nothing and still returns the line.
    ///
    /// The label is a part of the path, so a first attachment with a path
    /// that can be framed records a label that can be framed.
    pub fn attach(&mut self, module: u64, process_id: u32, program_path: Option<&str>) -> (message:
        String)
        ensures
            message@ == loaded_message(module, process_id, label_text(program_path)),
            exists|label: Option<Seq<char>>|
                final(self)@ == #[trigger] old(self)@.attach(module, label) && label_comes_from(
                    label,
                    label_text(program_path),
                ),
            program_path is None ==> final(self)@ == old(self)@.attach(module, None),
            old(self)@.phase is Detached && (program_path matches Some(p) ==> !has_terminator(p@))
                ==> (final(self)@.label matches Some(l) ==> !has_terminator(l)),
            final(self)@.wf(),
    {
        let label = match program_path {
            Some(p) => file_name_of(p),
            None => None,
        };
        let ghost recorded = owned_label_text(label);
        proof {
            use_type_invariant(&*self);
            if let Some(l) = recorded {
                if !has_terminator(program_path->0@) {
                    lemma_part_is_frameable(l, program_path->0@);
                }
            }
        }
        self.record_attach(module, label);
        assert(self@ == old(self)@.attach(module, recorded));
        assert(label_comes_from(recorded, label_text(program_path)));
        write_loaded_message(module, process_id, program_path)
    }

    /// Asks to start capturing. Only `Install` changes the context: the
    /// handles are then taken until `complete_start` is called.
    pub fn start_capture(&mut self) -> (decision: StartDecision)
        ensures
            (final(self)@, decision) == old(self)@.start(),
            final(self)@.wf(),
    {
        proof {
            use_type_invariant(&*self);
        }
        if self.pending.is_some() {
            return StartDecision::Busy;
        }
        match self.phase {
            Phase::Attached => {
                self.pending = Some(Operation::Starting);
                StartDecision::Install { module: self.module.unwrap() }
            },
            Phase::Hooked => StartDecision::AlreadyHooked,
            _ => StartDecision::NotAttached,
        }
    }

    /// Ends a start: `pointer` and `window` are the handles of the
    /// registrations that could be installed.
    pub fn complete_start(&mut self, pointer: Option<u64>, window: Option<u64>) -> (report:
        StartReport)
        ensures
            (final(self)@, report) == old(self)@.complete_start(pointer, window),
            final(self)@.wf(),
    {
        proof {
            use_type_invariant(&*self);
        }
        match self.pending {
            Some(Operation::Starting) => {
                self.pending = None;
                self.phase = Phase::Hooked;
                self.pointer = pointer;
                self.window = window;
                StartReport::Installed { pointer: pointer.is_some(), window: window.is_some() }
            },
            _ => StartReport::NotStarting,
        }
    }

    /// Asks to stop capturing. Only `Release` changes the context: the
    /// handles are then taken until `complete_stop` is called.
    pub fn stop_capture(&mut self) -> (decision: StopDecision)
        ensures
            (final(self)@, decision) == old(self)@.stop(),
            final(self)@.wf(),
    {
        proof {
            use_type_invariant(&*self);
        }
        if self.pending.is_some() {
            return StopDecision::Busy;
        }
        match self.phase {
            Phase::Hooked => {
                self.pending = Some(Operation::Stopping);
                StopDecision::Release { pointer: self.pointer, window: self.window }
            },
            _ => StopDecision::Nothing,
        }
    }

    /// Ends a stop: each flag says whether the release of that handle
    /// succeeded. A flag for a handle that was not present is ignored.
    pub fn complete_stop(&mut self, pointer_released: bool, window_released: bool) -> (report:
        StopReport)
        ensures
            (final(self)@, report) == old(self)@.complete_stop(pointer_released, window_released),
            final(self)@.wf(),
    {
        proof {
            use_type_invariant(&*self);
        }
        match self.pending {
            Some(Operation::Stopping) => {
                let report = StopReport::Released {
                    pointer_failed: self.pointer.is_some() && !pointer_released,
                    window_failed: self.window.is_some() && !window_released,
                };
                self.pointer = None;
                self.window = None;
                self.pending = None;
                self.phase = Phase::Final;
                report
            },
            _ => StopReport::NotStopping,
        }
    }

    /// The process unloads. Nothing is released, the operating system
    /// reclaims the registrations, and nothing that was recorded is touched:
    /// module, label and both handles stay. The context only notes that it
    /// is detached for good.
    pub fn detach(&mut self)
        ensures
            final(self)@ == old(self)@.detach(),
            final(self)@.module == old(self)@.module,
            final(self)@.label == old(self)@.label,
            final(self)@.pointer == old(self)@.pointer,
            final(self)@.window == old(self)@.window,
            final(self)@.wf(),
    {
        proof {
            use_type_invariant(&*self);
        }
        self.pending = None;
        self.phase = Phase::Final;
    }
}

} // verus!
