use crate::agent_traits::{FactSheet, FactSheetView, ProjectScope};
use crate::basic_agent::{AgentState, BasicAgent, BasicTraits};
use crate::errors::{ExecutionError, ExecutionErrorView};
use crate::json::{decode_string_list, decoded_string_list};
use vstd::prelude::*;
use vstd::seq_lib::*;
use vstd::string::StringExecFns;

verus! {

/// The Solution Architect role: derives the project scope from the project
/// description, gathers candidate external URLs where the scope asks for
/// them, and keeps only the URLs that answer a health probe.
///
/// The agent is a state machine.  [`Self::next_action`] says what outside
/// work the current state needs; the driver performs it and reports the
/// outcome through [`Self::handle_event`], which applies the verified
/// transition, until the state reaches `Finished` or a step fails fatally.
#[derive(Debug)]
pub struct AgentSolutionArchitect {
    pub attributes: BasicAgent,
}

/// The outside work the Architect's current state asks its driver for.
#[derive(Debug, Clone, Copy, PartialEq, Eq, Structural)]
pub enum ArchitectAction {
    /// Ask the gateway to derive a `ProjectScope` from the project
    /// description (structured decode).
    RequestProjectScope,
    /// Ask the gateway to enumerate candidate external URLs for the project
    /// description.
    RequestExternalUrls,
    /// Probe each recorded external URL with an HTTP GET and report one
    /// status per URL, in order (`None` for a transport error).
    ProbeExternalUrls,
    /// The state is not one this role handles: acknowledge with
    /// [`ArchitectEvent::FailSafe`] so the machine exits.
    FailSafeFinish,
    /// The machine is finished.
    Done,
}

/// Spec-level mirror of [`ArchitectEvent`].
pub enum ArchitectEventView {
    ProjectScopeDecoded(Option<ProjectScope>),
    ExternalUrlsReplied(Seq<char>),
    ProbeResults(Seq<Option<u16>>),
    FailSafe,
}

/// The outcome of one piece of outside work, reported back to the machine.
#[derive(Debug)]
pub enum ArchitectEvent {
    /// The gateway replied to the scope request; `None` where structured
    /// decoding of the reply failed.
    ProjectScopeDecoded(Option<ProjectScope>),
    /// The raw gateway reply to the URL-enumeration request.
    ExternalUrlsReplied(String),
    /// One probe status per recorded URL, in order; `None` for a transport
    /// error.
    ProbeResults(Vec<Option<u16>>),
    /// Acknowledgment of [`ArchitectAction::FailSafeFinish`].
    FailSafe,
}

impl View for ArchitectEvent {
    type V = ArchitectEventView;

    open spec fn view(&self) -> ArchitectEventView {
        match self {
            ArchitectEvent::ProjectScopeDecoded(decoded) => ArchitectEventView::ProjectScopeDecoded(
                *decoded,
            ),
            ArchitectEvent::ExternalUrlsReplied(text) => ArchitectEventView::ExternalUrlsReplied(
                text@,
            ),
            ArchitectEvent::ProbeResults(statuses) => ArchitectEventView::ProbeResults(statuses@),
            ArchitectEvent::FailSafe => ArchitectEventView::FailSafe,
        }
    }
}

/// The result of one model transition: the next state, the record as it
/// stands afterwards, and the fatal error if the step aborts.
#[verifier::ext_equal]
pub struct ArchitectPost {
    pub state: AgentState,
    pub fs: FactSheetView,
    pub fatal: Option<ExecutionErrorView>,
}

/// Whether a candidate URL is marked excluded by the probe results: some
/// probe of that URL came back with a transport error or a status other
/// than 200.
pub open spec fn spec_url_excluded(
    urls: Seq<Seq<char>>,
    statuses: Seq<Option<u16>>,
    u: Seq<char>,
) -> bool {
    exists|j: int| 0 <= j < urls.len() && urls[j] == u && statuses[j] != Some(200u16)
}

/// The retention predicate of the URL-validation step, as a first-class spec
/// value.
pub open spec fn spec_reachable_pred(urls: Seq<Seq<char>>, statuses: Seq<Option<u16>>) -> spec_fn(
    Seq<char>,
) -> bool {
    |u: Seq<char>| !spec_url_excluded(urls, statuses, u)
}

/// The candidate URLs that survive the probe: exactly those not marked
/// excluded, in input order.
pub open spec fn spec_reachable_urls(urls: Seq<Seq<char>>, statuses: Seq<Option<u16>>) -> Seq<
    Seq<char>,
> {
    urls.filter(spec_reachable_pred(urls, statuses))
}

/// What outside work the model asks for in each state.
pub open spec fn spec_architect_action(state: AgentState, fs: FactSheetView) -> ArchitectAction {
    match state {
        AgentState::Discovering => match fs.project_scope {
            None => ArchitectAction::RequestProjectScope,
            Some(scope) => if scope.is_external_urls_required {
                ArchitectAction::RequestExternalUrls
            } else {
                ArchitectAction::FailSafeFinish
            },
        },
        AgentState::Validation => ArchitectAction::ProbeExternalUrls,
        AgentState::Finished => ArchitectAction::Done,
        _ => ArchitectAction::FailSafeFinish,
    }
}

/// The Architect's transition model.  Any pairing of state and event not
/// explicitly handled forces an immediate transition to `Finished` — a
/// deliberate fail-safe exit, not a normal code path.
pub open spec fn spec_architect_step(
    state: AgentState,
    fs: FactSheetView,
    ev: ArchitectEventView,
) -> ArchitectPost {
    match (state, ev) {
        (AgentState::Discovering, ArchitectEventView::ProjectScopeDecoded(decoded)) => match decoded {
            Some(scope) => ArchitectPost {
                state: if scope.is_external_urls_required {
                    AgentState::Discovering
                } else {
                    AgentState::Finished
                },
                fs: FactSheetView { project_scope: Some(scope), ..fs },
                fatal: None,
            },
            None => ArchitectPost { state, fs, fatal: Some(ExecutionErrorView::DecodeFailure) },
        },
        (AgentState::Discovering, ArchitectEventView::ExternalUrlsReplied(text)) => match fs.project_scope {
            Some(scope) => if scope.is_external_urls_required {
                match decoded_string_list(text) {
                    Some(urls) => ArchitectPost {
                        state: AgentState::Validation,
                        fs: FactSheetView { external_urls: urls, ..fs },
                        fatal: None,
                    },
                    None => ArchitectPost {
                        state,
                        fs,
                        fatal: Some(ExecutionErrorView::DecodeFailure),
                    },
                }
            } else {
                ArchitectPost { state: AgentState::Finished, fs, fatal: None }
            },
            None => ArchitectPost { state: AgentState::Finished, fs, fatal: None },
        },
        (AgentState::Validation, ArchitectEventView::ProbeResults(statuses)) => ArchitectPost {
            state: AgentState::Finished,
            fs: FactSheetView {
                external_urls: spec_reachable_urls(fs.external_urls, statuses),
                ..fs
            },
            fatal: None,
        },
        _ => ArchitectPost { state: AgentState::Finished, fs, fatal: None },
    }
}

/// Looks for a string among the collected exclusions.
fn contains_string(list: &Vec<String>, target: &String) -> (b: bool)
    ensures
        b == list.deep_view().contains(target@),
{
    let mut i: usize = 0;
    while i < list.len()
        invariant
            0 <= i <= list@.len(),
            forall|j: int| 0 <= j < i ==> list.deep_view()[j] != target@,
        decreases list@.len() - i,
    {
        if list[i] == *target {
            proof {
                assert(list.deep_view()[i as int] == target@);
            }
            return true;
        }
        i += 1;
    }
    proof {
        assert(!list.deep_view().contains(target@));
    }
    false
}

/// Whether an upper status index already marks a URL excluded.
pub open spec fn spec_url_excluded_upto(
    urls: Seq<Seq<char>>,
    statuses: Seq<Option<u16>>,
    u: Seq<char>,
    n: int,
) -> bool {
    exists|j: int| 0 <= j < n && j < urls.len() && urls[j] == u && statuses[j] != Some(200u16)
}

/// Rewrites the candidate URLs to the filtered set: a URL is dropped exactly
/// when some probe of it failed (non-200 status or transport error); the
/// retained URLs keep their input order.
pub fn filter_reachable_urls(urls: &Vec<String>, statuses: &Vec<Option<u16>>) -> (r: Vec<String>)
    requires
        urls@.len() == statuses@.len(),
    ensures
        r.deep_view() == spec_reachable_urls(urls.deep_view(), statuses@),
{
    let ghost urls_v = urls.deep_view();
    let ghost statuses_v = statuses@;
    let mut exclude: Vec<String> = Vec::new();
    let mut i: usize = 0;
    proof {
        assert(forall|u: Seq<char>| !exclude.deep_view().contains(u));
    }
    while i < urls.len()
        invariant
            urls_v == urls.deep_view(),
            statuses_v == statuses@,
            urls@.len() == statuses@.len(),
            0 <= i <= urls@.len(),
            forall|u: Seq<char>| #[trigger]
                exclude.deep_view().contains(u) <==> spec_url_excluded_upto(
                    urls_v,
                    statuses_v,
                    u,
                    i as int,
                ),
        decreases urls@.len() - i,
    {
        let excluded_here = match statuses[i] {
            Some(code) => code != 200,
            None => true,
        };
        if excluded_here {
            let ghost before = exclude.deep_view();
            exclude.push(urls[i].clone());
            proof {
                let after = exclude.deep_view();
                assert(after =~= before.push(urls_v[i as int]));
                assert forall|u: Seq<char>| #[trigger]
                    after.contains(u) implies (before.contains(u) || u == urls_v[i as int]) by {
                    let j = choose|j: int| 0 <= j < after.len() && after[j] == u;
                    if j < before.len() {
                        assert(before[j] == u);
                    }
                }
                assert forall|u: Seq<char>| before.contains(u) implies #[trigger]
                    after.contains(u) by {
                    let j = choose|j: int| 0 <= j < before.len() && before[j] == u;
                    assert(after[j] == u);
                }
                assert(after[after.len() - 1] == urls_v[i as int]);
                assert(after.contains(urls_v[i as int]));
                assert forall|u: Seq<char>| #[trigger]
                    after.contains(u) <==> spec_url_excluded_upto(
                        urls_v,
                        statuses_v,
                        u,
                        i + 1,
                    ) by {
                    if after.contains(u) {
                        if before.contains(u) {
                            assert(spec_url_excluded_upto(urls_v, statuses_v, u, i as int));
                        } else {
                            assert(u == urls_v[i as int]);
                            assert(statuses_v[i as int] != Some(200u16));
                        }
                    }
                    if spec_url_excluded_upto(urls_v, statuses_v, u, i + 1) {
                        let j = choose|j: int|
                            0 <= j < i + 1 && j < urls_v.len() && urls_v[j] == u && statuses_v[j]
                                != Some(200u16);
                        if j < i {
                            assert(spec_url_excluded_upto(urls_v, statuses_v, u, i as int));
                        } else {
                            assert(u == urls_v[i as int]);
                        }
                    }
                }
            }
        } else {
            proof {
                assert forall|u: Seq<char>| #[trigger]
                    exclude.deep_view().contains(u) <==> spec_url_excluded_upto(
                        urls_v,
                        statuses_v,
                        u,
                        i + 1,
                    ) by {
                    if spec_url_excluded_upto(urls_v, statuses_v, u, i + 1) {
                        let j = choose|j: int|
                            0 <= j < i + 1 && j < urls_v.len() && urls_v[j] == u && statuses_v[j]
                                != Some(200u16);
                        assert(j != i);
                        assert(spec_url_excluded_upto(urls_v, statuses_v, u, i as int));
                    }
                }
            }
        }
        i += 1;
    }
    proof {
        assert forall|u: Seq<char>| #[trigger]
            exclude.deep_view().contains(u) <==> spec_url_excluded(urls_v, statuses_v, u) by {
        }
    }
    let mut result: Vec<String> = Vec::new();
    let mut i2: usize = 0;
    let ghost pred = spec_reachable_pred(urls_v, statuses_v);
    proof {
        assert(result.deep_view() =~= urls_v.subrange(0, 0).filter(pred));
    }
    while i2 < urls.len()
        invariant
            urls_v == urls.deep_view(),
            statuses_v == statuses@,
            pred == spec_reachable_pred(urls_v, statuses_v),
            0 <= i2 <= urls@.len(),
            forall|u: Seq<char>| #[trigger]
                exclude.deep_view().contains(u) <==> spec_url_excluded(urls_v, statuses_v, u),
            result.deep_view() == urls_v.subrange(0, i2 as int).filter(pred),
        decreases urls@.len() - i2,
    {
        let ghost k = i2 as int;
        let excluded_flag = contains_string(&exclude, &urls[i2]);
        proof {
            assert(urls_v[k] == urls@[k]@);
            assert(excluded_flag == spec_url_excluded(urls_v, statuses_v, urls_v[k]));
            assert(pred(urls_v[k]) == !excluded_flag);
            assert(urls_v.subrange(0, k + 1) =~= urls_v.subrange(0, k).push(urls_v[k]));
            crate::agent_traits::lemma_filter_push(urls_v.subrange(0, k), pred, urls_v[k]);
        }
        if !excluded_flag {
            let ghost before = result.deep_view();
            result.push(urls[i2].clone());
            proof {
                assert(result.deep_view() =~= before.push(urls_v[k]));
            }
        }
        i2 += 1;
    }
    proof {
        assert(urls_v.subrange(0, urls_v.len() as int) =~= urls_v);
    }
    result
}

impl AgentSolutionArchitect {
    /// A fresh Solution Architect, ready to discover the project scope.
    pub fn new() -> (agent: Self)
        ensures
            agent.attributes.objective@
                == "Gathers information and design solutions for website development"@,
            agent.attributes.position@ == "Solutions architect"@,
            agent.attributes.state == AgentState::Discovering,
            agent.attributes.memory@.len() == 0,
    {
        let attributes = BasicAgent::new(
            String::from_str("Gathers information and design solutions for website development"),
            String::from_str("Solutions architect"),
        );
        AgentSolutionArchitect { attributes }
    }

    /// Read-only access to the common identity and state fields.
    pub fn get_attributes_from_agent(&self) -> (r: &BasicAgent)
        ensures
            r == self.attributes,
    {
        &self.attributes
    }

    /// What outside work the current state needs from the driver.
    pub fn next_action(&self, fact_sheet: &FactSheet) -> (a: ArchitectAction)
        ensures
            a == spec_architect_action(self.attributes.state, fact_sheet@),
    {
        match self.attributes.state {
            AgentState::Discovering => match fact_sheet.project_scope {
                None => ArchitectAction::RequestProjectScope,
                Some(scope) => if scope.is_external_urls_required {
                    ArchitectAction::RequestExternalUrls
                } else {
                    ArchitectAction::FailSafeFinish
                },
            },
            AgentState::Validation => ArchitectAction::ProbeExternalUrls,
            AgentState::Finished => ArchitectAction::Done,
            _ => ArchitectAction::FailSafeFinish,
        }
    }

    /// Applies one verified transition of the Architect machine to the agent
    /// state and the shared record, exactly as [`spec_architect_step`]
    /// describes.  The probe outcome rewrites the recorded URLs from the
    /// current probe results alone: no exclusion is remembered across runs.
    pub fn handle_event(&mut self, fact_sheet: &mut FactSheet, event: ArchitectEvent) -> (r: Result<
        (),
        ExecutionError,
    >)
        requires
            match event@ {
                ArchitectEventView::ProbeResults(statuses) => old(self).attributes.state
                    == AgentState::Validation ==> statuses.len() == old(
                    fact_sheet,
                )@.external_urls.len(),
                _ => true,
            },
        ensures
            ({
                let post = spec_architect_step(
                    old(self).attributes.state,
                    old(fact_sheet)@,
                    event@,
                );
                &&& final(self).attributes.state == post.state
                &&& final(fact_sheet)@ == post.fs
                &&& (match r {
                    Ok(_) => post.fatal is None,
                    Err(e) => post.fatal == Some(e@),
                })
                &&& final(self).attributes.objective == old(self).attributes.objective
                &&& final(self).attributes.position == old(self).attributes.position
                &&& final(self).attributes.memory == old(self).attributes.memory
            }),
    {
        let ghost pre_state = self.attributes.state;
        let ghost pre_fs = fact_sheet@;
        match (self.attributes.state, event) {
            (AgentState::Discovering, ArchitectEvent::ProjectScopeDecoded(decoded)) => match decoded {
                Some(scope) => {
                    fact_sheet.project_scope = Some(scope);
                    if scope.is_external_urls_required {
                        self.attributes.state = AgentState::Discovering;
                    } else {
                        self.attributes.state = AgentState::Finished;
                    }
                    proof {
                        assert(fact_sheet@ =~~= spec_architect_step(
                            pre_state,
                            pre_fs,
                            ArchitectEventView::ProjectScopeDecoded(Some(scope)),
                        ).fs);
                    }
                    Ok(())
                },
                None => Err(ExecutionError::DecodeFailure),
            },
            (AgentState::Discovering, ArchitectEvent::ExternalUrlsReplied(text)) => {
                let required = match fact_sheet.project_scope {
                    Some(scope) => scope.is_external_urls_required,
                    None => false,
                };
                if required {
                    match decode_string_list(text.as_str()) {
                        Some(urls) => {
                            fact_sheet.external_urls = urls;
                            self.attributes.state = AgentState::Validation;
                            proof {
                                assert(fact_sheet@ =~~= spec_architect_step(
                                    pre_state,
                                    pre_fs,
                                    ArchitectEventView::ExternalUrlsReplied(text@),
                                ).fs);
                            }
                            Ok(())
                        },
                        None => Err(ExecutionError::DecodeFailure),
                    }
                } else {
                    self.attributes.state = AgentState::Finished;
                    Ok(())
                }
            },
            (AgentState::Validation, ArchitectEvent::ProbeResults(statuses)) => {
                let filtered = filter_reachable_urls(&fact_sheet.external_urls, &statuses);
                fact_sheet.external_urls = filtered;
                self.attributes.state = AgentState::Finished;
                proof {
                    assert(fact_sheet@ =~~= spec_architect_step(
                        pre_state,
                        pre_fs,
                        ArchitectEventView::ProbeResults(statuses@),
                    ).fs);
                }
                Ok(())
            },
            (_, _) => {
                self.attributes.state = AgentState::Finished;
                Ok(())
            },
        }
    }
}

/// The Discovering step records every well-formed decoded scope in the
/// record: after the scope event the record always carries that scope, and
/// the step never aborts on it.
pub proof fn lemma_scope_recorded(fs: FactSheetView, scope: ProjectScope)
    ensures
        ({
            let post = spec_architect_step(
                AgentState::Discovering,
                fs,
                ArchitectEventView::ProjectScopeDecoded(Some(scope)),
            );
            post.fs.project_scope == Some(scope) && post.fatal is None
        }),
{
}

/// Whenever the Architect machine stands in `Validation`, a project scope has
/// been produced.
pub open spec fn spec_scope_invariant(state: AgentState, fs: FactSheetView) -> bool {
    state == AgentState::Validation ==> fs.project_scope is Some
}

/// The Discovering step always produces a `ProjectScope` before the machine
/// advances: every transition preserves the fact that a machine standing in
/// `Validation` carries a recorded scope.
pub proof fn lemma_scope_before_validation(
    state: AgentState,
    fs: FactSheetView,
    ev: ArchitectEventView,
)
    requires
        spec_scope_invariant(state, fs),
    ensures
        ({
            let post = spec_architect_step(state, fs, ev);
            spec_scope_invariant(post.state, post.fs)
        }),
{
}

/// A probed URL that is unreachable — every probe of it came back with a
/// transport error or a non-200 status — is always excluded from the
/// filtered set.
pub proof fn lemma_unreachable_url_excluded(
    urls: Seq<Seq<char>>,
    statuses: Seq<Option<u16>>,
    u: Seq<char>,
)
    requires
        urls.contains(u),
        forall|j: int| 0 <= j < urls.len() && urls[j] == u ==> statuses[j] != Some(200u16),
    ensures
        !spec_reachable_urls(urls, statuses).contains(u),
{
    let pred = spec_reachable_pred(urls, statuses);
    let result = urls.filter(pred);
    let j = choose|j: int| 0 <= j < urls.len() && urls[j] == u;
    assert(spec_url_excluded(urls, statuses, u));
    if result.contains(u) {
        let i = choose|i: int| 0 <= i < result.len() && result[i] == u;
        urls.lemma_filter_pred(pred, i);
        assert(pred(u));
    }
}

/// Re-running the URL-validation probe with an unreachable URL always
/// excludes it from the rewritten record, whatever exclusions earlier runs
/// made: the probe step depends only on the URLs and statuses it is handed.
pub proof fn lemma_probe_rerun_excludes(
    fs: FactSheetView,
    statuses: Seq<Option<u16>>,
    u: Seq<char>,
)
    requires
        fs.external_urls.contains(u),
        forall|j: int|
            0 <= j < fs.external_urls.len() && fs.external_urls[j] == u ==> statuses[j] != Some(
                200u16,
            ),
    ensures
        ({
            let post = spec_architect_step(
                AgentState::Validation,
                fs,
                ArchitectEventView::ProbeResults(statuses),
            );
            !post.fs.external_urls.contains(u)
        }),
{
    lemma_unreachable_url_excluded(fs.external_urls, statuses, u);
}

} // verus!
