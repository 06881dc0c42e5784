use crate::agent_traits::{
    filter_static_get_routes, routes_view, spec_static_get_pred, FactSheet, FactSheetView,
    ProjectScope, RouteObject, RouteObjectView,
};
use crate::basic_agent::{AgentState, BasicAgent, BasicTraits};
use crate::errors::{ExecutionError, ExecutionErrorView};
use vstd::prelude::*;
use vstd::string::StringExecFns;

verus! {

/// How many additional fix attempts the Backend Developer tolerates after
/// the first build failure; the failure after the last tolerated attempt —
/// the third consecutive one — is fatal.
pub const BUG_CEILING: i8 = 2;

/// Where within its `Validation` state the Backend Developer machine stands
/// between two pieces of outside work.
#[derive(Debug, Clone, Copy, PartialEq, Eq, Structural)]
pub enum ValidationPhase {
    /// Waiting for the build outcome.
    Building,
    /// The build passed; waiting for the extracted endpoint descriptors.
    Extracting,
    /// The endpoints are recorded; waiting for the health probes to finish.
    Probing,
}

/// The Backend Developer role: generates backend code from a template and
/// the project description, loops through improve-or-fix passes against
/// build failures up to a fixed ceiling, and on a passing build records the
/// static GET endpoints and has them probed.
///
/// The agent is a state machine.  [`Self::next_action`] says what outside
/// work the current state needs; the driver performs it and reports the
/// outcome through [`Self::handle_event`], until the state reaches
/// `Finished` or a step fails fatally.
#[derive(Debug)]
pub struct AgentBackendDeveloper {
    pub attributes: BasicAgent,
    pub bug_errors: Option<String>,
    pub bug_count: i8,
    pub phase: ValidationPhase,
}

/// The outside work the Backend Developer's current state asks its driver
/// for.
#[derive(Debug, Clone, Copy, PartialEq, Eq, Structural)]
pub enum BackendAction {
    /// Read the code template and ask the gateway for initial backend code,
    /// with the prompt built by [`initial_code_prompt`].
    RequestInitialCode,
    /// Ask the gateway for an improve pass guided by the record, with the
    /// prompt from [`AgentBackendDeveloper::working_prompt`].
    RequestCodeImprovement,
    /// Ask the gateway for a fix pass guided by the latest build errors,
    /// with the prompt from [`AgentBackendDeveloper::working_prompt`].
    RequestCodeFix,
    /// Run the build tool over the persisted code and report the outcome.
    RunBuild,
    /// Ask the gateway to extract REST endpoint descriptors from the
    /// persisted code, with the prompt from [`endpoints_prompt`].
    RequestEndpoints,
    /// Probe each recorded endpoint route, persist the endpoint schema, and
    /// stop the launched server; probe failures are warnings only.
    ProbeEndpoints,
    /// The state is not one this role handles: acknowledge with
    /// [`BackendEvent::FailSafe`] so the machine exits.
    FailSafeFinish,
    /// The machine is finished.
    Done,
}

/// Spec-level mirror of [`BackendEvent`].
pub enum BackendEventView {
    CodeGenerated(Seq<char>),
    BuildSucceeded,
    BuildFailed(Seq<char>),
    EndpointsDecoded(Option<Seq<RouteObjectView>>),
    ProbeCompleted,
    FailSafe,
}

/// The outcome of one piece of outside work, reported back to the machine.
#[derive(Debug)]
pub enum BackendEvent {
    /// The gateway replied to a code request with this text; the driver has
    /// persisted it.
    CodeGenerated(String),
    /// The build tool exited successfully.
    BuildSucceeded,
    /// The build tool exited with a failure; carries the captured error
    /// stream.
    BuildFailed(String),
    /// The gateway replied to the endpoint-extraction request; `None` where
    /// structured decoding of the reply failed.
    EndpointsDecoded(Option<Vec<RouteObject>>),
    /// Every recorded endpoint has been probed and the schema persisted.
    ProbeCompleted,
    /// Acknowledgment of [`BackendAction::FailSafeFinish`].
    FailSafe,
}

impl View for BackendEvent {
    type V = BackendEventView;

    open spec fn view(&self) -> BackendEventView {
        match self {
            BackendEvent::CodeGenerated(code) => BackendEventView::CodeGenerated(code@),
            BackendEvent::BuildSucceeded => BackendEventView::BuildSucceeded,
            BackendEvent::BuildFailed(errors) => BackendEventView::BuildFailed(errors@),
            BackendEvent::EndpointsDecoded(decoded) => BackendEventView::EndpointsDecoded(
                match decoded {
                    Some(routes) => Some(routes_view(routes@)),
                    None => None,
                },
            ),
            BackendEvent::ProbeCompleted => BackendEventView::ProbeCompleted,
            BackendEvent::FailSafe => BackendEventView::FailSafe,
        }
    }
}

/// The result of one model transition: the next machine fields, the record
/// as it stands afterwards, and the fatal error if the step aborts.
#[verifier::ext_equal]
pub struct BackendPost {
    pub state: AgentState,
    pub phase: ValidationPhase,
    pub bug_count: int,
    pub bug_errors: Option<Seq<char>>,
    pub fs: FactSheetView,
    pub fatal: Option<ExecutionErrorView>,
}

/// What outside work the model asks for in each state.
pub open spec fn spec_backend_action(
    state: AgentState,
    phase: ValidationPhase,
    bug_count: int,
) -> BackendAction {
    match state {
        AgentState::Discovering => BackendAction::RequestInitialCode,
        AgentState::Working => if bug_count == 0 {
            BackendAction::RequestCodeImprovement
        } else {
            BackendAction::RequestCodeFix
        },
        AgentState::Validation => match phase {
            ValidationPhase::Building => BackendAction::RunBuild,
            ValidationPhase::Extracting => BackendAction::RequestEndpoints,
            ValidationPhase::Probing => BackendAction::ProbeEndpoints,
        },
        AgentState::Finished => BackendAction::Done,
        _ => BackendAction::FailSafeFinish,
    }
}

/// The Backend Developer's transition model.  Any pairing of state, phase
/// and event not explicitly handled forces an immediate transition to
/// `Finished` — a deliberate fail-safe exit, not a normal code path.
pub open spec fn spec_backend_step(
    state: AgentState,
    phase: ValidationPhase,
    bug_count: int,
    bug_errors: Option<Seq<char>>,
    fs: FactSheetView,
    ev: BackendEventView,
) -> BackendPost {
    let unchanged = BackendPost { state, phase, bug_count, bug_errors, fs, fatal: None };
    let fail_safe = BackendPost {
        state: AgentState::Finished,
        phase: ValidationPhase::Building,
        bug_count,
        bug_errors,
        fs,
        fatal: None,
    };
    match (state, ev) {
        (AgentState::Discovering, BackendEventView::CodeGenerated(code)) => BackendPost {
            state: AgentState::Working,
            fs: FactSheetView { backend_code: Some(code), ..fs },
            ..unchanged
        },
        (AgentState::Working, BackendEventView::CodeGenerated(code)) => BackendPost {
            state: AgentState::Validation,
            phase: ValidationPhase::Building,
            fs: FactSheetView { backend_code: Some(code), ..fs },
            ..unchanged
        },
        (AgentState::Validation, BackendEventView::BuildSucceeded) => if phase
            == ValidationPhase::Building {
            BackendPost { bug_count: 0, phase: ValidationPhase::Extracting, ..unchanged }
        } else {
            fail_safe
        },
        (AgentState::Validation, BackendEventView::BuildFailed(errors)) => if phase
            == ValidationPhase::Building {
            if bug_count >= BUG_CEILING as int {
                BackendPost {
                    bug_errors: Some(errors),
                    fatal: Some(ExecutionErrorView::BugCeilingExceeded(errors)),
                    ..unchanged
                }
            } else {
                BackendPost {
                    state: AgentState::Working,
                    bug_count: bug_count + 1,
                    bug_errors: Some(errors),
                    ..unchanged
                }
            }
        } else {
            fail_safe
        },
        (AgentState::Validation, BackendEventView::EndpointsDecoded(decoded)) => if phase
            == ValidationPhase::Extracting {
            match decoded {
                Some(routes) => BackendPost {
                    phase: ValidationPhase::Probing,
                    fs: FactSheetView {
                        api_endpoint_schema: routes.filter(spec_static_get_pred()),
                        ..fs
                    },
                    ..unchanged
                },
                None => BackendPost {
                    fatal: Some(ExecutionErrorView::DecodeFailure),
                    ..unchanged
                },
            }
        } else {
            fail_safe
        },
        (AgentState::Validation, BackendEventView::ProbeCompleted) => if phase
            == ValidationPhase::Probing {
            BackendPost {
                state: AgentState::Finished,
                phase: ValidationPhase::Building,
                ..unchanged
            }
        } else {
            fail_safe
        },
        _ => fail_safe,
    }
}

impl AgentBackendDeveloper {
    /// The machine's well-formedness: the bug counter never exceeds the
    /// ceiling at rest.
    pub open spec fn wf(&self) -> bool {
        0 <= self.bug_count <= BUG_CEILING
    }

    /// A fresh Backend Developer, ready to request initial code.
    pub fn new() -> (agent: Self)
        ensures
            agent.attributes.objective@
                == "Develops backend code for webserver and the server database"@,
            agent.attributes.position@ == "Backend Developer"@,
            agent.attributes.state == AgentState::Discovering,
            agent.attributes.memory@.len() == 0,
            agent.bug_errors is None,
            agent.bug_count == 0,
            agent.phase == ValidationPhase::Building,
            agent.wf(),
    {
        let attributes = BasicAgent::new(
            String::from_str("Develops backend code for webserver and the server database"),
            String::from_str("Backend Developer"),
        );
        AgentBackendDeveloper {
            attributes,
            bug_errors: None,
            bug_count: 0,
            phase: ValidationPhase::Building,
        }
    }

    /// Read-only access to the common identity and state fields.
    pub fn get_attributes_from_agent(&self) -> (r: &BasicAgent)
        ensures
            r == self.attributes,
    {
        &self.attributes
    }

    /// What outside work the current state needs from the driver.
    pub fn next_action(&self) -> (a: BackendAction)
        ensures
            a == spec_backend_action(self.attributes.state, self.phase, self.bug_count as int),
    {
        match self.attributes.state {
            AgentState::Discovering => BackendAction::RequestInitialCode,
            AgentState::Working => if self.bug_count == 0 {
                BackendAction::RequestCodeImprovement
            } else {
                BackendAction::RequestCodeFix
            },
            AgentState::Validation => match self.phase {
                ValidationPhase::Building => BackendAction::RunBuild,
                ValidationPhase::Extracting => BackendAction::RequestEndpoints,
                ValidationPhase::Probing => BackendAction::ProbeEndpoints,
            },
            AgentState::Finished => BackendAction::Done,
            _ => BackendAction::FailSafeFinish,
        }
    }

    /// Applies one verified transition of the Backend Developer machine,
    /// exactly as [`spec_backend_step`] describes: code replies advance
    /// toward validation, a passing build resets the bug counter and moves
    /// on to endpoint extraction, and a failing build loops back to Working
    /// until the ceiling makes the failure fatal.
    pub fn handle_event(&mut self, fact_sheet: &mut FactSheet, event: BackendEvent) -> (r: Result<
        (),
        ExecutionError,
    >)
        requires
            old(self).wf(),
        ensures
            final(self).wf(),
            ({
                let post = spec_backend_step(
                    old(self).attributes.state,
                    old(self).phase,
                    old(self).bug_count as int,
                    old(self).bug_errors.deep_view(),
                    old(fact_sheet)@,
                    event@,
                );
                &&& final(self).attributes.state == post.state
                &&& final(self).phase == post.phase
                &&& final(self).bug_count as int == post.bug_count
                &&& final(self).bug_errors.deep_view() == post.bug_errors
                &&& final(fact_sheet)@ == post.fs
                &&& (match r {
                    Ok(_) => post.fatal is None,
                    Err(e) => post.fatal == Some(e@),
                })
                &&& final(self).attributes.objective == old(self).attributes.objective
                &&& final(self).attributes.position == old(self).attributes.position
                &&& final(self).attributes.memory == old(self).attributes.memory
            }),
    {
        let ghost pre_state = self.attributes.state;
        let ghost pre_phase = self.phase;
        let ghost pre_fs = fact_sheet@;
        match (self.attributes.state, event) {
            (AgentState::Discovering, BackendEvent::CodeGenerated(code)) => {
                fact_sheet.backend_code = Some(code);
                self.attributes.state = AgentState::Working;
                proof {
                    assert(fact_sheet@ =~~= spec_backend_step(
                        pre_state,
                        pre_phase,
                        old(self).bug_count as int,
                        old(self).bug_errors.deep_view(),
                        pre_fs,
                        event@,
                    ).fs);
                }
                Ok(())
            },
            (AgentState::Working, BackendEvent::CodeGenerated(code)) => {
                fact_sheet.backend_code = Some(code);
                self.attributes.state = AgentState::Validation;
                self.phase = ValidationPhase::Building;
                proof {
                    assert(fact_sheet@ =~~= spec_backend_step(
                        pre_state,
                        pre_phase,
                        old(self).bug_count as int,
                        old(self).bug_errors.deep_view(),
                        pre_fs,
                        event@,
                    ).fs);
                }
                Ok(())
            },
            (AgentState::Validation, BackendEvent::BuildSucceeded) => {
                if self.phase == ValidationPhase::Building {
                    self.bug_count = 0;
                    self.phase = ValidationPhase::Extracting;
                    Ok(())
                } else {
                    self.attributes.state = AgentState::Finished;
                    self.phase = ValidationPhase::Building;
                    Ok(())
                }
            },
            (AgentState::Validation, BackendEvent::BuildFailed(errors)) => {
                if self.phase == ValidationPhase::Building {
                    if self.bug_count >= BUG_CEILING {
                        self.bug_errors = Some(errors.clone());
                        Err(ExecutionError::BugCeilingExceeded(errors))
                    } else {
                        self.bug_count = self.bug_count + 1;
                        self.bug_errors = Some(errors);
                        self.attributes.state = AgentState::Working;
                        Ok(())
                    }
                } else {
                    self.attributes.state = AgentState::Finished;
                    self.phase = ValidationPhase::Building;
                    Ok(())
                }
            },
            (AgentState::Validation, BackendEvent::EndpointsDecoded(decoded)) => {
                if self.phase == ValidationPhase::Extracting {
                    match decoded {
                        Some(routes) => {
                            let filtered = filter_static_get_routes(routes);
                            fact_sheet.api_endpoint_schema = filtered;
                            self.phase = ValidationPhase::Probing;
                            proof {
                                assert(fact_sheet@ =~~= spec_backend_step(
                                    pre_state,
                                    pre_phase,
                                    old(self).bug_count as int,
                                    old(self).bug_errors.deep_view(),
                                    pre_fs,
                                    event@,
                                ).fs);
                            }
                            Ok(())
                        },
                        None => Err(ExecutionError::DecodeFailure),
                    }
                } else {
                    self.attributes.state = AgentState::Finished;
                    self.phase = ValidationPhase::Building;
                    Ok(())
                }
            },
            (AgentState::Validation, BackendEvent::ProbeCompleted) => {
                // Probing finished and the fail-safe exit coincide here: both
                // leave the machine Finished with a reset phase.
                self.attributes.state = AgentState::Finished;
                self.phase = ValidationPhase::Building;
                Ok(())
            },
            (_, _) => {
                self.attributes.state = AgentState::Finished;
                self.phase = ValidationPhase::Building;
                Ok(())
            },
        }
    }
}

/// The rendering of an optional text: the text itself, or empty.
pub open spec fn spec_opt_text(o: Option<Seq<char>>) -> Seq<char> {
    match o {
        Some(s) => s,
        None => Seq::<char>::empty(),
    }
}

/// The rendering of a boolean flag.
pub open spec fn spec_bool_text(b: bool) -> Seq<char> {
    if b {
        "true"@
    } else {
        "false"@
    }
}

/// The rendering of the recorded project scope.
pub open spec fn spec_scope_text(scope: Option<ProjectScope>) -> Seq<char> {
    match scope {
        None => "unknown"@,
        Some(s) => "crud_required: "@ + spec_bool_text(s.is_crud_required) + ", login_required: "@
            + spec_bool_text(s.is_user_login_and_logout) + ", external_urls_required: "@
            + spec_bool_text(s.is_external_urls_required),
    }
}

/// The rendering of the recorded external URLs, one per line.
pub open spec fn spec_urls_text(urls: Seq<Seq<char>>) -> Seq<char>
    decreases urls.len(),
{
    if urls.len() == 0 {
        Seq::<char>::empty()
    } else {
        spec_urls_text(urls.drop_last()) + "\n- "@ + urls.last()
    }
}

/// The rendering of the full record context that guides an improve pass.
pub open spec fn spec_record_context(fs: FactSheetView) -> Seq<char> {
    "PROJECT DESCRIPTION: "@ + fs.project_description + "\nPROJECT SCOPE: "@ + spec_scope_text(
        fs.project_scope,
    ) + "\nEXTERNAL URLS:"@ + spec_urls_text(fs.external_urls) + "\n"@
}

/// The prompt asking for initial backend code from the template and the
/// project description.
pub open spec fn spec_initial_code_prompt(template: Seq<char>, description: Seq<char>) -> Seq<
    char,
> {
    "CODE TEMPLATE: "@ + template + "\n PROJECT DESCRIPTION: "@ + description + "\n"@
}

/// The prompt asking for an improve pass over the current code, guided by
/// the full record context.
pub open spec fn spec_improved_code_prompt(fs: FactSheetView) -> Seq<char> {
    "CODE TEMPLATE: "@ + spec_opt_text(fs.backend_code) + "\n PROJECT_DESCRIPTION: "@
        + spec_record_context(fs) + "\n"@
}

/// The prompt asking for a fix pass, guided by the latest build errors.
pub open spec fn spec_fix_code_prompt(code: Seq<char>, errors: Seq<char>) -> Seq<char> {
    "BROKEN_CODE: "@ + code + "\n ERROR_BUGS: "@ + errors
        + "\n THIS FUNCTION ONLY OUTPUTS CODE. JUST OUTPUT THE CODE."@
}

/// The prompt asking for the REST endpoint descriptors of the persisted
/// code.
pub open spec fn spec_endpoints_prompt(code: Seq<char>) -> Seq<char> {
    "CODE_INPUT: "@ + code
}

/// The prompt of the Working state: an improve pass while no build has
/// failed, a fix pass guided by the recorded errors afterwards.
pub open spec fn spec_working_prompt(
    bug_count: int,
    bug_errors: Option<Seq<char>>,
    fs: FactSheetView,
) -> Seq<char> {
    if bug_count == 0 {
        spec_improved_code_prompt(fs)
    } else {
        spec_fix_code_prompt(spec_opt_text(fs.backend_code), spec_opt_text(bug_errors))
    }
}

/// The stored text, or the empty string.
fn opt_str(o: &Option<String>) -> (r: &str)
    ensures
        r@ == spec_opt_text(o.deep_view()),
{
    match o {
        Some(s) => s.as_str(),
        None => {
            proof {
                reveal_strlit("");
                assert(""@ =~= Seq::<char>::empty());
            }
            ""
        },
    }
}

/// The rendering of a boolean flag.
fn bool_text(b: bool) -> (r: &'static str)
    ensures
        r@ == spec_bool_text(b),
{
    if b {
        "true"
    } else {
        "false"
    }
}

/// Renders the recorded project scope for the record context.
fn scope_text(scope: &Option<ProjectScope>) -> (r: String)
    ensures
        r@ == spec_scope_text(*scope),
{
    match scope {
        None => String::from_str("unknown"),
        Some(s) => {
            let mut r = String::from_str("crud_required: ");
            r.append(bool_text(s.is_crud_required));
            r.append(", login_required: ");
            r.append(bool_text(s.is_user_login_and_logout));
            r.append(", external_urls_required: ");
            r.append(bool_text(s.is_external_urls_required));
            r
        },
    }
}

/// Renders the recorded external URLs, one per line.
fn urls_text(urls: &Vec<String>) -> (r: String)
    ensures
        r@ == spec_urls_text(urls.deep_view()),
{
    let ghost urls_v = urls.deep_view();
    let mut r = String::new();
    let mut i: usize = 0;
    proof {
        assert(r@ =~= spec_urls_text(urls_v.subrange(0, 0)));
    }
    while i < urls.len()
        invariant
            urls_v == urls.deep_view(),
            0 <= i <= urls@.len(),
            r@ == spec_urls_text(urls_v.subrange(0, i as int)),
        decreases urls@.len() - i,
    {
        r.append("\n- ");
        r.append(urls[i].as_str());
        proof {
            let s1 = urls_v.subrange(0, i + 1);
            assert(s1.drop_last() =~= urls_v.subrange(0, i as int));
            assert(s1.last() == urls_v[i as int]);
        }
        i += 1;
    }
    proof {
        assert(urls_v.subrange(0, urls_v.len() as int) =~= urls_v);
    }
    r
}

/// Builds the full record context that guides an improve pass.
pub fn record_context(fact_sheet: &FactSheet) -> (r: String)
    ensures
        r@ == spec_record_context(fact_sheet@),
{
    let mut r = String::from_str("PROJECT DESCRIPTION: ");
    r.append(fact_sheet.project_description.as_str());
    r.append("\nPROJECT SCOPE: ");
    let scope = scope_text(&fact_sheet.project_scope);
    r.append(scope.as_str());
    r.append("\nEXTERNAL URLS:");
    let urls = urls_text(&fact_sheet.external_urls);
    r.append(urls.as_str());
    r.append("\n");
    r
}

/// Builds the prompt asking for initial backend code: the code template
/// combined with the project description.
pub fn initial_code_prompt(template: &str, description: &str) -> (r: String)
    ensures
        r@ == spec_initial_code_prompt(template@, description@),
{
    let mut r = String::from_str("CODE TEMPLATE: ");
    r.append(template);
    r.append("\n PROJECT DESCRIPTION: ");
    r.append(description);
    r.append("\n");
    r
}

/// Builds the prompt asking for an improve pass over the current code.
pub fn improved_code_prompt(fact_sheet: &FactSheet) -> (r: String)
    ensures
        r@ == spec_improved_code_prompt(fact_sheet@),
{
    let mut r = String::from_str("CODE TEMPLATE: ");
    r.append(opt_str(&fact_sheet.backend_code));
    r.append("\n PROJECT_DESCRIPTION: ");
    let context = record_context(fact_sheet);
    r.append(context.as_str());
    r.append("\n");
    r
}

/// Builds the prompt asking for a fix pass over broken code, carrying the
/// captured build errors.
pub fn fix_code_prompt(code: &str, errors: &str) -> (r: String)
    ensures
        r@ == spec_fix_code_prompt(code@, errors@),
{
    let mut r = String::from_str("BROKEN_CODE: ");
    r.append(code);
    r.append("\n ERROR_BUGS: ");
    r.append(errors);
    r.append("\n THIS FUNCTION ONLY OUTPUTS CODE. JUST OUTPUT THE CODE.");
    r
}

/// Builds the prompt asking for the REST endpoint descriptors of the
/// persisted code.
pub fn endpoints_prompt(code: &str) -> (r: String)
    ensures
        r@ == spec_endpoints_prompt(code@),
{
    let mut r = String::from_str("CODE_INPUT: ");
    r.append(code);
    r
}

impl AgentBackendDeveloper {
    /// Builds the prompt of the Working state: an improve pass while no
    /// build has failed, a fix pass guided by the recorded build errors
    /// afterwards.
    pub fn working_prompt(&self, fact_sheet: &FactSheet) -> (r: String)
        ensures
            r@ == spec_working_prompt(
                self.bug_count as int,
                self.bug_errors.deep_view(),
                fact_sheet@,
            ),
    {
        if self.bug_count == 0 {
            improved_code_prompt(fact_sheet)
        } else {
            fix_code_prompt(opt_str(&fact_sheet.backend_code), opt_str(&self.bug_errors))
        }
    }
}

/// A fix prompt carries the build error text verbatim: the text stands in
/// the prompt's error-context field as one contiguous segment.
pub proof fn lemma_fix_prompt_contains_errors(code: Seq<char>, errors: Seq<char>)
    ensures
        ({
            let p = spec_fix_code_prompt(code, errors);
            let start = "BROKEN_CODE: "@.len() + code.len() + "\n ERROR_BUGS: "@.len();
            &&& start + errors.len() <= p.len()
            &&& p.subrange(start as int, (start + errors.len()) as int) == errors
        }),
{
    let p = spec_fix_code_prompt(code, errors);
    let start = "BROKEN_CODE: "@.len() + code.len() + "\n ERROR_BUGS: "@.len();
    assert(p.subrange(start as int, (start + errors.len()) as int) =~= errors);
}

/// A build failure's error text recorded in the machine is fed back
/// verbatim into the next Working prompt once the bug count is nonzero.
pub proof fn lemma_working_prompt_carries_errors(
    bug_count: int,
    errors: Seq<char>,
    fs: FactSheetView,
)
    requires
        bug_count != 0,
    ensures
        ({
            let p = spec_working_prompt(bug_count, Some(errors), fs);
            let start = "BROKEN_CODE: "@.len() + spec_opt_text(fs.backend_code).len()
                + "\n ERROR_BUGS: "@.len();
            p.subrange(start as int, (start + errors.len()) as int) == errors
        }),
{
    lemma_fix_prompt_contains_errors(spec_opt_text(fs.backend_code), errors);
}

/// Bug-ceiling law: starting from a clean validation (no failures yet),
/// build failures on three consecutive attempts — with a fix pass between
/// any two — leave the first two recoverable and make exactly the third
/// fatal, carrying that third failure's error text.
pub proof fn lemma_bug_ceiling(
    fs: FactSheetView,
    bug_errors: Option<Seq<char>>,
    e1: Seq<char>,
    e2: Seq<char>,
    e3: Seq<char>,
    c1: Seq<char>,
    c2: Seq<char>,
)
    ensures
        ({
            let p1 = spec_backend_step(
                AgentState::Validation,
                ValidationPhase::Building,
                0,
                bug_errors,
                fs,
                BackendEventView::BuildFailed(e1),
            );
            let p2 = spec_backend_step(
                p1.state,
                p1.phase,
                p1.bug_count,
                p1.bug_errors,
                p1.fs,
                BackendEventView::CodeGenerated(c1),
            );
            let p3 = spec_backend_step(
                p2.state,
                p2.phase,
                p2.bug_count,
                p2.bug_errors,
                p2.fs,
                BackendEventView::BuildFailed(e2),
            );
            let p4 = spec_backend_step(
                p3.state,
                p3.phase,
                p3.bug_count,
                p3.bug_errors,
                p3.fs,
                BackendEventView::CodeGenerated(c2),
            );
            let p5 = spec_backend_step(
                p4.state,
                p4.phase,
                p4.bug_count,
                p4.bug_errors,
                p4.fs,
                BackendEventView::BuildFailed(e3),
            );
            &&& p1.fatal is None
            &&& p1.state == AgentState::Working
            &&& p1.bug_count == 1
            &&& p3.fatal is None
            &&& p3.state == AgentState::Working
            &&& p3.bug_count == 2
            &&& p5.fatal == Some(ExecutionErrorView::BugCeilingExceeded(e3))
        }),
{
}

} // verus!
