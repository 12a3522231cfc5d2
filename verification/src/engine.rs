//! The scaffold orchestrator.
//!
//! `build_plan` turns a validated project name into the ordered list of
//! filesystem actions that materialize the manifest: one directory or file
//! per entry, paths resolved below the project root, the placeholder token
//! substituted where the manifest asks for it.  `ScaffoldRun` is the state
//! machine around the plan: it validates the request, hands the actions out
//! one by one, and on the first failure hands out the removal of everything
//! created so far, newest first, before reporting the error.  The caller
//! performs each pending action and reports back whether it succeeded; the
//! machine itself never touches the filesystem.

use vstd::prelude::*;
use vstd::string::*;
use crate::manifest::{
    all_entries, entry_wf, lemma_manifest_wf, manifest_wf, spec_manifest, EntryKind,
    ManifestEntry, SpecEntry,
};
use crate::paths::{check_name, check_segment, join_path, segment_ok, spec_join, valid_name};
use crate::subst::{has_token, lemma_substitute_token_absent, spec_substitute, substitute};
use crate::templates::{placeholder_token, spec_template_body, spec_token, template_content};

verus! {

/// Why a run failed.
#[derive(Debug)]
pub enum ScaffoldError {
    /// The project name is unusable or its directory already exists.
    /// No filesystem action is issued in this case.
    Validation(String),
    /// A manifest entry names a template that is not in the bundle: a
    /// packaging defect.
    MissingTemplate(String),
    /// A directory or file could not be created; the payload names the path.
    Io(String),
    /// A resolved output path would escape the project root: a manifest
    /// defect.
    PathEscape(String),
}

/// One filesystem action the caller is asked to perform.
pub enum Action {
    MakeDir { path: String },
    PutFile { path: String, content: String },
    RemovePath { path: String, kind: EntryKind },
}

/// The mathematical image of an action.
#[verifier::ext_equal]
pub enum SpecAction {
    MakeDir { path: Seq<char> },
    PutFile { path: Seq<char>, content: Seq<char> },
    RemovePath { path: Seq<char>, kind: EntryKind },
}

impl View for Action {
    type V = SpecAction;

    open spec fn view(&self) -> SpecAction {
        match self {
            Action::MakeDir { path } => SpecAction::MakeDir { path: path@ },
            Action::PutFile { path, content } => SpecAction::PutFile {
                path: path@,
                content: content@,
            },
            Action::RemovePath { path, kind } => SpecAction::RemovePath {
                path: path@,
                kind: *kind,
            },
        }
    }
}

impl SpecAction {
    /// The path an action touches.
    pub open spec fn path_view(self) -> Seq<char> {
        match self {
            SpecAction::MakeDir { path } => path,
            SpecAction::PutFile { path, .. } => path,
            SpecAction::RemovePath { path, .. } => path,
        }
    }

    /// A forward action: something materialization creates.
    pub open spec fn is_forward(self) -> bool {
        !(self is RemovePath)
    }
}

/// The action that undoes a forward action.
pub open spec fn spec_undo_of(a: SpecAction) -> SpecAction {
    match a {
        SpecAction::MakeDir { path } => SpecAction::RemovePath {
            path,
            kind: EntryKind::Directory,
        },
        SpecAction::PutFile { path, .. } => SpecAction::RemovePath {
            path,
            kind: EntryKind::File,
        },
        SpecAction::RemovePath { .. } => a,
    }
}

/// The action a manifest entry asks for, under a given project name.
pub open spec fn spec_action_of(e: SpecEntry, name: Seq<char>) -> SpecAction {
    let path = spec_join(
        name,
        e.output.map_values(|seg: Seq<char>| spec_substitute(seg, spec_token(), name)),
    );
    if e.kind == EntryKind::Directory {
        SpecAction::MakeDir { path }
    } else {
        let body = match spec_template_body(e.template) {
            Some(b) => b,
            None => Seq::empty(),
        };
        SpecAction::PutFile {
            path,
            content: if e.substitute {
                spec_substitute(body, spec_token(), name)
            } else {
                body
            },
        }
    }
}

/// The whole plan for a manifest: first the project root, then one action
/// per entry, in manifest order.
pub open spec fn plan_matches(acts: Seq<SpecAction>, m: Seq<SpecEntry>, name: Seq<char>) -> bool {
    &&& acts.len() == m.len() + 1
    &&& acts[0] == SpecAction::MakeDir { path: name }
    &&& forall|i: int| 0 <= i < m.len() ==> acts[i + 1] == spec_action_of(#[trigger] m[i], name)
}

/// Compute the ordered action list for a project name.  The segment and
/// bundle checks are defensive: the first postcondition proves that on a
/// well-formed manifest they never fire.
pub fn build_plan(name: &str, entries: &Vec<ManifestEntry>) -> (r: Result<
    Vec<Action>,
    ScaffoldError,
>)
    requires
        valid_name(name@),
    ensures
        manifest_wf(entries@.map_values(|e: ManifestEntry| e@)) ==> r is Ok,
        r matches Ok(acts) ==> plan_matches(
            acts@.map_values(|a: Action| a@),
            entries@.map_values(|e: ManifestEntry| e@),
            name@,
        ),
{
    let ghost m = entries@.map_values(|e: ManifestEntry| e@);
    let token = placeholder_token();
    let mut acts: Vec<Action> = Vec::new();
    acts.push(Action::MakeDir { path: String::from_str(name) });
    let mut idx: usize = 0;
    while idx < entries.len()
        invariant
            valid_name(name@),
            token@ == spec_token(),
            m == entries@.map_values(|e: ManifestEntry| e@),
            m.len() == entries@.len(),
            idx <= entries@.len(),
            acts@.len() == idx + 1,
            acts@[0]@ == (SpecAction::MakeDir { path: name@ }),
            forall|i: int| 0 <= i < idx ==> acts@[i + 1]@ == spec_action_of(#[trigger] m[i], name@),
        decreases entries@.len() - idx,
    {
        let e = &entries[idx];
        let ghost se = m[idx as int];
        proof {
            assert(se == e@);
            if manifest_wf(m) {
                assert(entry_wf(se));
            }
        }
        let mut segs: Vec<String> = Vec::new();
        let mut j: usize = 0;
        while j < e.output_segments.len()
            invariant
                valid_name(name@),
                token@ == spec_token(),
                m == entries@.map_values(|e: ManifestEntry| e@),
                se == e@,
                manifest_wf(m) ==> entry_wf(se),
                j <= e.output_segments@.len(),
                segs@.len() == j,
                forall|k: int| 0 <= k < j ==> segs@[k]@ == spec_substitute(
                    #[trigger] se.output[k],
                    spec_token(),
                    name@,
                ),
                forall|k: int| 0 <= k < j ==> segment_ok(#[trigger] segs@[k]@),
            decreases e.output_segments@.len() - j,
        {
            let s = substitute(e.output_segments[j].as_str(), token, name);
            if !check_segment(s.as_str()) {
                proof {
                    if manifest_wf(m) {
                        assert(entry_wf(se));
                        assert(!has_token(se.output[j as int], spec_token()));
                        lemma_substitute_token_absent(se.output[j as int], spec_token(), name@);
                        assert(segment_ok(se.output[j as int]));
                        assert(false);
                    }
                }
                return Err(ScaffoldError::PathEscape(s));
            }
            segs.push(s);
            j = j + 1;
        }
        if e.output_segments.len() == 0 {
            proof {
                if manifest_wf(m) {
                    assert(entry_wf(m[idx as int]));
                    assert(false);
                }
            }
            return Err(ScaffoldError::PathEscape(String::from_str(name)));
        }
        let path = join_path(name, &segs);
        proof {
            assert(segs@.map_values(|s: String| s@) =~= se.output.map_values(
                |seg: Seq<char>| spec_substitute(seg, spec_token(), name@),
            ));
        }
        match e.kind {
            EntryKind::Directory => {
                acts.push(Action::MakeDir { path });
                proof {
                    assert(acts@[idx + 1]@ =~= spec_action_of(se, name@));
                }
            },
            EntryKind::File => {
                match template_content(e.template_rel_path.as_str()) {
                    None => {
                        proof {
                            if manifest_wf(m) {
                                assert(entry_wf(m[idx as int]));
                                assert(false);
                            }
                        }
                        return Err(ScaffoldError::MissingTemplate(String::from_str(
                            e.template_rel_path.as_str(),
                        )));
                    },
                    Some(body) => {
                        let content = if e.substitute {
                            substitute(body, token, name)
                        } else {
                            String::from_str(body)
                        };
                        acts.push(Action::PutFile { path, content });
                        proof {
                            assert(acts@[idx + 1]@ =~= spec_action_of(se, name@));
                        }
                    },
                }
            },
        }
        idx = idx + 1;
    }
    Ok(acts)
}

/// Where a run stands.
#[derive(Clone, Copy, PartialEq, Eq, Structural, Debug)]
pub enum Phase {
    /// Forward actions are being handed out.
    Materializing,
    /// A forward action failed; removals are being handed out.
    RollingBack,
    /// Every action succeeded.
    Done,
    /// A failure was hit and everything created was handed back for removal.
    Aborted,
    /// The request never passed validation; nothing was issued.
    Rejected,
}

/// How a finished run ended.
pub enum Outcome {
    Success,
    Failure(ScaffoldError),
}

/// What a finished run reports: the paths it created (in creation order)
/// and how it ended.
pub struct GenerationResult {
    pub created_paths: Vec<String>,
    pub outcome: Outcome,
}

/// A validated request: a project name that passed the shape check.  Built
/// once per invocation from the CLI input and consumed by the orchestrator.
pub struct ScaffoldRequest {
    pub project_name: String,
}

impl ScaffoldRequest {
    /// Validate CLI input into a request: the name must be non-empty and
    /// free of path separators, and is rejected otherwise.
    pub fn new(name: &str) -> (r: Result<ScaffoldRequest, ScaffoldError>)
        ensures
            (r is Ok) == valid_name(name@),
            r matches Ok(rq) ==> rq.project_name@ == name@,
            r matches Err(e) ==> e is Validation,
    {
        if check_name(name) {
            Ok(ScaffoldRequest { project_name: String::from_str(name) })
        } else {
            Err(ScaffoldError::Validation(String::from_str(
                "project name must be non-empty and contain no path separator",
            )))
        }
    }
}

/// The orchestrator state machine.  `start` validates, `pending` names the
/// next filesystem action, `record` moves the machine on the caller's
/// report of success or failure.
pub struct ScaffoldRun {
    /// The forward plan, fixed at `start`.
    pub actions: Vec<Action>,
    /// During `Materializing`: how many forward actions have succeeded.
    pub next: usize,
    /// During `RollingBack`: `actions[0..undo]` still await removal.
    pub undo: usize,
    pub phase: Phase,
    /// The failure to report, set as soon as the run leaves the happy path.
    pub failure: Option<ScaffoldError>,
}

impl ScaffoldRun {
    /// The machine's internal consistency.
    pub open spec fn wf(&self) -> bool {
        &&& forall|i: int| 0 <= i < self.actions@.len() ==> (#[trigger] self.actions@[i]@).is_forward()
        &&& match self.phase {
            Phase::Materializing => self.next < self.actions@.len() && self.failure is None,
            Phase::RollingBack => 1 <= self.undo <= self.actions@.len() && self.failure is Some,
            Phase::Done => self.failure is None,
            Phase::Aborted => self.failure is Some,
            Phase::Rejected => self.failure is Some,
        }
    }

    /// A run on which no filesystem action is or will be pending.
    pub open spec fn is_terminal(&self) -> bool {
        self.phase == Phase::Done || self.phase == Phase::Aborted || self.phase == Phase::Rejected
    }

    /// Validate a request and lay out the plan.  When the name is unusable
    /// or the target already exists the run is `Rejected` and no action is
    /// ever issued.
    pub fn start(name: &str, target_exists: bool) -> (r: ScaffoldRun)
        ensures
            r.wf(),
            valid_name(name@) && !target_exists ==> {
                &&& r.phase == Phase::Materializing
                &&& r.next == 0
                &&& plan_matches(r.actions@.map_values(|a: Action| a@), spec_manifest(), name@)
            },
            !(valid_name(name@) && !target_exists) ==> {
                &&& r.phase == Phase::Rejected
                &&& r.failure matches Some(ScaffoldError::Validation(_))
                &&& r.actions@.len() == 0
            },
    {
        if !check_name(name) {
            return ScaffoldRun {
                actions: Vec::new(),
                next: 0,
                undo: 0,
                phase: Phase::Rejected,
                failure: Some(ScaffoldError::Validation(String::from_str(
                    "project name must be non-empty and contain no path separator",
                ))),
            };
        }
        if target_exists {
            return ScaffoldRun {
                actions: Vec::new(),
                next: 0,
                undo: 0,
                phase: Phase::Rejected,
                failure: Some(ScaffoldError::Validation(String::from_str(
                    "a file or directory with the project name already exists",
                ))),
            };
        }
        let entries = all_entries();
        match build_plan(name, &entries) {
            Ok(actions) => {
                proof {
                    lemma_manifest_wf();
                    assert(entries@.map_values(|e: ManifestEntry| e@) == spec_manifest());
                    assert(actions@.len() == spec_manifest().len() + 1);
                    assert(spec_manifest().len() == 16);
                    assert forall|i: int|
                        0 <= i < actions@.len() implies (#[trigger] actions@[i]@).is_forward() by {
                        let acts = actions@.map_values(|a: Action| a@);
                        assert(acts[i] == actions@[i]@);
                        if i > 0 {
                            assert(acts[i] == spec_action_of(spec_manifest()[i - 1], name@));
                        }
                    }
                }
                ScaffoldRun {
                    actions,
                    next: 0,
                    undo: 0,
                    phase: Phase::Materializing,
                    failure: None,
                }
            },
            Err(e) => {
                proof {
                    lemma_manifest_wf();
                    assert(entries@.map_values(|e: ManifestEntry| e@) == spec_manifest());
                    assert(false);
                }
                ScaffoldRun {
                    actions: Vec::new(),
                    next: 0,
                    undo: 0,
                    phase: Phase::Rejected,
                    failure: Some(e),
                }
            },
        }
    }

    /// The action the caller must perform next, if any: the next forward
    /// action while materializing, or the removal of the most recently
    /// created path while rolling back.
    pub fn pending(&self) -> (r: Option<Action>)
        requires
            self.wf(),
        ensures
            match self.phase {
                Phase::Materializing => r matches Some(a) && a@ == self.actions@[
                    self.next as int
                ]@,
                Phase::RollingBack => r matches Some(a) && a@ == spec_undo_of(
                    self.actions@[self.undo - 1]@,
                ),
                _ => r is None,
            },
    {
        match self.phase {
            Phase::Materializing => Some(clone_action(&self.actions[self.next])),
            Phase::RollingBack => Some(undo_action(&self.actions[self.undo - 1])),
            _ => None,
        }
    }

    /// Record the outcome of the pending action.  Success advances the
    /// plan; the first failure starts the rollback, which walks the created
    /// prefix backwards whatever the removals report (best effort).
    pub fn record(&mut self, ok: bool)
        requires
            old(self).wf(),
            !old(self).is_terminal(),
        ensures
            final(self).wf(),
            final(self).actions == old(self).actions,
            old(self).phase == Phase::Materializing && ok ==> {
                &&& final(self).next == old(self).next + 1
                &&& if old(self).next + 1 == old(self).actions@.len() {
                    final(self).phase == Phase::Done
                } else {
                    final(self).phase == Phase::Materializing
                }
            },
            old(self).phase == Phase::Materializing && !ok ==> {
                &&& final(self).failure matches Some(ScaffoldError::Io(_))
                &&& if old(self).next == 0 {
                    final(self).phase == Phase::Aborted
                } else {
                    final(self).phase == Phase::RollingBack && final(self).undo == old(self).next
                }
            },
            old(self).phase == Phase::RollingBack ==> {
                &&& final(self).failure == old(self).failure
                &&& if old(self).undo == 1 {
                    final(self).phase == Phase::Aborted
                } else {
                    final(self).phase == Phase::RollingBack && final(self).undo == old(self).undo
                        - 1
                }
            },
    {
        match self.phase {
            Phase::Materializing => {
                let n = self.actions.len();
                if ok {
                    assert(self.next < n);
                    self.next = self.next + 1;
                    if self.next == n {
                        self.phase = Phase::Done;
                    }
                } else {
                    let mut msg = String::from_str("cannot create ");
                    msg.append(action_path(&self.actions[self.next]).as_str());
                    self.failure = Some(ScaffoldError::Io(msg));
                    if self.next == 0 {
                        self.phase = Phase::Aborted;
                    } else {
                        self.undo = self.next;
                        self.phase = Phase::RollingBack;
                    }
                }
            },
            Phase::RollingBack => {
                if self.undo == 1 {
                    self.phase = Phase::Aborted;
                } else {
                    self.undo = self.undo - 1;
                }
            },
            _ => {},
        }
    }

    /// The report of a finished run.
    pub fn outcome(&self) -> (r: Option<GenerationResult>)
        requires
            self.wf(),
        ensures
            self.is_terminal() <==> r is Some,
            self.phase == Phase::Done ==> (r matches Some(g) && (g.outcome is Success)
                && g.created_paths@.map_values(|s: String| s@) == self.actions@.map_values(
                |a: Action| a@.path_view(),
            )),
            self.phase == Phase::Aborted || self.phase == Phase::Rejected ==> (r matches Some(g)
                && (g.outcome matches Outcome::Failure(e) && Some(e) == self.failure)
                && g.created_paths@.len() == 0),
    {
        match self.phase {
            Phase::Done => {
                let mut paths: Vec<String> = Vec::new();
                let mut i: usize = 0;
                while i < self.actions.len()
                    invariant
                        i <= self.actions@.len(),
                        paths@.len() == i,
                        forall|k: int| 0 <= k < i ==> paths@[k]@ == (
                        #[trigger] self.actions@[k]@).path_view(),
                    decreases self.actions@.len() - i,
                {
                    paths.push(action_path(&self.actions[i]));
                    i = i + 1;
                }
                proof {
                    assert(paths@.map_values(|s: String| s@) =~= self.actions@.map_values(
                        |a: Action| a@.path_view(),
                    ));
                }
                Some(GenerationResult { created_paths: paths, outcome: Outcome::Success })
            },
            Phase::Aborted | Phase::Rejected => {
                let err = match &self.failure {
                    Some(e) => clone_error(e),
                    None => ScaffoldError::Io(String::new()),
                };
                proof {
                    assert(self.failure is Some);
                }
                Some(GenerationResult {
                    created_paths: Vec::new(),
                    outcome: Outcome::Failure(err),
                })
            },
            _ => None,
        }
    }
}

/// A project name that cannot conspire with surrounding text to rebuild
/// the placeholder token: it contains neither the token's opening brace nor
/// its closing one, and is not itself a fragment of the token.  Ordinary
/// names all qualify.
pub open spec fn safe_replacement(name: Seq<char>) -> bool {
    &&& !name.contains(spec_token()[0])
    &&& !name.contains(spec_token()[spec_token().len() - 1])
    &&& !has_token(spec_token(), name)
}

/// Law: among a plan's file contents, the placeholder token never survives
/// a marked substitution, and an unmarked file is its template body,
/// unchanged.
pub proof fn lemma_outputs_token_free(
    acts: Seq<SpecAction>,
    m: Seq<SpecEntry>,
    name: Seq<char>,
    i: int,
)
    requires
        plan_matches(acts, m, name),
        0 <= i < m.len(),
        m[i].kind == EntryKind::File,
        spec_template_body(m[i].template) is Some,
        safe_replacement(name),
    ensures
        acts[i + 1] matches SpecAction::PutFile { content, .. } && (m[i].substitute
            ==> !has_token(content, spec_token())) && (!m[i].substitute ==> Some(content)
            == spec_template_body(m[i].template)),
{
    reveal_strlit("{{project-name}}");
    assert(spec_token().len() == 16);
    assert(acts[i + 1] == spec_action_of(m[i], name));
    let body = match spec_template_body(m[i].template) {
        Some(b) => b,
        None => Seq::empty(),
    };
    if m[i].substitute {
        crate::subst::lemma_substitute_no_token(body, spec_token(), name);
    }
}

/// Law: a plan touches the project root and the manifest's outputs, each
/// exactly once — no extras, no omissions, no repeats.  The root is shorter
/// than everything below it, and distinct manifest outputs resolve to
/// distinct joined paths.
pub proof fn lemma_plan_paths_distinct(acts: Seq<SpecAction>, name: Seq<char>)
    requires
        plan_matches(acts, spec_manifest(), name),
        valid_name(name),
    ensures
        forall|i: int| 0 <= i < acts.len() ==> (#[trigger] acts[i]).is_forward(),
        acts[0].path_view() == name,
        forall|i: int|
            1 <= i < acts.len() ==> (#[trigger] acts[i]).path_view() == spec_join(
                name,
                spec_manifest()[i - 1].output,
            ),
        forall|i: int, j: int|
            0 <= i < j < acts.len() ==> acts[i].path_view() != acts[j].path_view(),
{
    let m = spec_manifest();
    lemma_manifest_wf();
    crate::manifest::lemma_manifest_outputs_distinct();
    assert forall|i: int| 0 <= i < m.len() implies (#[trigger] m[i]).output.map_values(
        |seg: Seq<char>| spec_substitute(seg, spec_token(), name),
    ) == m[i].output by {
        assert(entry_wf(m[i]));
        assert forall|k: int| 0 <= k < m[i].output.len() implies spec_substitute(
            #[trigger] m[i].output[k],
            spec_token(),
            name,
        ) == m[i].output[k] by {
            assert(!has_token(m[i].output[k], spec_token()));
            lemma_substitute_token_absent(m[i].output[k], spec_token(), name);
        }
        assert(m[i].output.map_values(|seg: Seq<char>| spec_substitute(seg, spec_token(), name))
            =~= m[i].output);
    }
    assert forall|i: int| 0 <= i < acts.len() implies (#[trigger] acts[i]).is_forward() by {
        if i >= 1 {
            assert(acts[i] == spec_action_of(m[i - 1], name));
        }
    }
    assert forall|i: int| 1 <= i < acts.len() implies (#[trigger] acts[i]).path_view()
        == spec_join(name, m[i - 1].output) by {
        assert(acts[i] == spec_action_of(m[i - 1], name));
    }
    assert forall|i: int, j: int|
        0 <= i < j < acts.len() implies acts[i].path_view() != acts[j].path_view() by {
        assert(entry_wf(m[j - 1]));
        if i == 0 {
            assert(acts[0].path_view() == name);
            crate::paths::lemma_join_longer(name, m[j - 1].output);
        } else {
            assert(entry_wf(m[i - 1]));
            if acts[i].path_view() == acts[j].path_view() {
                crate::paths::lemma_join_injective(name, m[i - 1].output, m[j - 1].output);
                assert(m[i - 1].output == m[j - 1].output);
                assert(false);
            }
        }
    }
}

/// A copy of an action, equal to the original in every contract.
fn clone_action(a: &Action) -> (r: Action)
    ensures
        r@ == a@,
{
    match a {
        Action::MakeDir { path } => Action::MakeDir { path: path.clone() },
        Action::PutFile { path, content } => Action::PutFile {
            path: path.clone(),
            content: content.clone(),
        },
        Action::RemovePath { path, kind } => Action::RemovePath { path: path.clone(), kind: *kind },
    }
}

/// The removal that undoes a forward action.
fn undo_action(a: &Action) -> (r: Action)
    ensures
        r@ == spec_undo_of(a@),
{
    match a {
        Action::MakeDir { path } => Action::RemovePath {
            path: path.clone(),
            kind: EntryKind::Directory,
        },
        Action::PutFile { path, .. } => Action::RemovePath {
            path: path.clone(),
            kind: EntryKind::File,
        },
        Action::RemovePath { path, kind } => Action::RemovePath {
            path: path.clone(),
            kind: *kind,
        },
    }
}

/// The path an action touches.
fn action_path(a: &Action) -> (r: String)
    ensures
        r@ == a@.path_view(),
{
    match a {
        Action::MakeDir { path } => path.clone(),
        Action::PutFile { path, .. } => path.clone(),
        Action::RemovePath { path, .. } => path.clone(),
    }
}

/// A copy of an error, equal to the original.
fn clone_error(e: &ScaffoldError) -> (r: ScaffoldError)
    ensures
        r == *e,
{
    match e {
        ScaffoldError::Validation(m) => ScaffoldError::Validation(m.clone()),
        ScaffoldError::MissingTemplate(m) => ScaffoldError::MissingTemplate(m.clone()),
        ScaffoldError::Io(m) => ScaffoldError::Io(m.clone()),
        ScaffoldError::PathEscape(m) => ScaffoldError::PathEscape(m.clone()),
    }
}

} // verus!
