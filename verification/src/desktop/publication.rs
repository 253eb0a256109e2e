//! Publishing the attachment descriptor without replacing anything: the descriptor is
//! written to a stage file beside it, renamed into place only where no file exists, and read
//! back. Each step's outcome decides the next step, and a failure names exactly the file it
//! left behind.
use vstd::prelude::*;

use super::descriptor::{
    desktop_error, desktop_error_text, DescriptorPublicationFailure, DescriptorPublicationResidue, DescriptorState,
};
use crate::error::{controller_error_text, ControllerError};
use crate::paths::SLASH;

verus! {

/// The decimal digits of `n` as ASCII bytes, without leading zeros.
pub open spec fn decimal_bytes(n: nat) -> Seq<u8>
    decreases n,
{
    if n < 10 {
        seq![(48 + n) as u8]
    } else {
        decimal_bytes(n / 10).push((48 + n % 10) as u8)
    }
}

fn push_decimal_bytes(bytes: &mut Vec<u8>, n: u64)
    ensures
        final(bytes)@ == old(bytes)@ + decimal_bytes(n as nat),
    decreases n,
{
    if n >= 10 {
        push_decimal_bytes(bytes, n / 10);
    }
    bytes.push(48u8 + (n % 10) as u8);
}

/// The directory part of a path: everything up to and with its last `/`, nothing where it
/// has none.
pub open spec fn directory_prefix(p: Seq<u8>) -> Seq<u8> {
    match p.index_of_last(SLASH) {
        Some(k) => p.take(k + 1),
        None => Seq::empty(),
    }
}

/// The file name of a path: everything after its last `/`.
pub open spec fn final_component(p: Seq<u8>) -> Seq<u8> {
    match p.index_of_last(SLASH) {
        Some(k) => p.skip(k + 1),
        None => p,
    }
}

/// The name of the stage file written beside the descriptor: `.{name}-{pid}-{sequence}`.
pub open spec fn stage_name_bytes(name: Seq<u8>, pid: u32, sequence: u64) -> Seq<u8> {
    seq![46u8] + name + seq![45u8] + decimal_bytes(pid as nat) + seq![45u8] + decimal_bytes(sequence as nat)
}

/// The path of the stage file for the descriptor at `final_path`: in the descriptor's
/// directory, named after the descriptor, the process and its stage count.
pub open spec fn stage_path_bytes(final_path: Seq<u8>, pid: u32, sequence: u64) -> Seq<u8> {
    directory_prefix(final_path) + stage_name_bytes(final_component(final_path), pid, sequence)
}

/// The index of the last `/` of the path, if any.
fn last_separator(path: &[u8]) -> (k: Option<usize>)
    ensures
        match k {
            Some(i) => i < path@.len() && path@.index_of_last(SLASH) == Some(i as int),
            None => path@.index_of_last(SLASH) is None,
        },
{
    let mut i: usize = path.len();
    while i > 0
        invariant
            0 <= i <= path@.len(),
            forall|j: int| i <= j < path@.len() ==> path@[j] != SLASH,
        decreases i,
    {
        if path[i - 1] == SLASH {
            proof {
                path@.index_of_last_ensures(SLASH);
                lemma_last_index(path@, SLASH, i - 1);
            }
            return Some(i - 1);
        }
        i = i - 1;
    }
    proof {
        path@.index_of_last_ensures(SLASH);
    }
    None
}

proof fn lemma_last_index(p: Seq<u8>, c: u8, k: int)
    requires
        0 <= k < p.len(),
        p[k] == c,
        forall|j: int| k < j < p.len() ==> p[j] != c,
    ensures
        p.index_of_last(c) == Some(k),
{
    p.index_of_last_ensures(c);
    match p.index_of_last(c) {
        Some(i) => {
            if i < k {
                assert(p[k] != c);
            }
            if i > k {
                assert(p[i] != c);
            }
        },
        None => {
            assert(p.contains(c));
        },
    }
}

/// The name of the stage file for the descriptor at `final_path`, as its directory sees it,
/// and the stage file's whole path.
pub fn stage_file(final_path: &[u8], pid: u32, sequence: u64) -> (stage: (Vec<u8>, Vec<u8>))
    ensures
        stage.0@ == stage_name_bytes(final_component(final_path@), pid, sequence),
        stage.1@ == stage_path_bytes(final_path@, pid, sequence),
{
    let (directory_end, name_start) = match last_separator(final_path) {
        Some(k) => {
            assert(k < final_path.len());
            (k + 1, k + 1)
        },
        None => (0, 0),
    };
    let mut name: Vec<u8> = Vec::new();
    name.push(46u8);
    let mut i: usize = name_start;
    while i < final_path.len()
        invariant
            name_start <= i <= final_path@.len(),
            name@ == seq![46u8] + final_path@.subrange(name_start as int, i as int),
        decreases final_path@.len() - i,
    {
        name.push(final_path[i]);
        assert(final_path@.subrange(name_start as int, i + 1) =~= final_path@.subrange(name_start as int, i as int).push(final_path@[i as int]));
        i = i + 1;
    }
    name.push(45u8);
    push_decimal_bytes(&mut name, pid as u64);
    name.push(45u8);
    push_decimal_bytes(&mut name, sequence);
    proof {
        assert(final_path@.subrange(name_start as int, final_path@.len() as int) =~= final_component(final_path@));
        assert(name@ =~= stage_name_bytes(final_component(final_path@), pid, sequence));
    }
    let mut path: Vec<u8> = Vec::new();
    let mut j: usize = 0;
    while j < directory_end
        invariant
            directory_end <= final_path@.len(),
            0 <= j <= directory_end,
            path@ == final_path@.take(j as int),
        decreases directory_end - j,
    {
        path.push(final_path[j]);
        assert(final_path@.take(j + 1) =~= final_path@.take(j as int).push(final_path@[j as int]));
        j = j + 1;
    }
    let mut k: usize = 0;
    let ghost prefix = path@;
    while k < name.len()
        invariant
            0 <= k <= name@.len(),
            path@ == prefix + name@.take(k as int),
        decreases name@.len() - k,
    {
        path.push(name[k]);
        assert(name@.take(k + 1) =~= name@.take(k as int).push(name@[k as int]));
        k = k + 1;
    }
    proof {
        assert(name@.take(name@.len() as int) =~= name@);
        assert(prefix =~= directory_prefix(final_path@));
    }
    (name, path)
}

proof fn lemma_decimal_has_no_separator(n: nat)
    ensures
        !decimal_bytes(n).contains(SLASH),
        decimal_bytes(n).len() > 0,
    decreases n,
{
    if n >= 10 {
        lemma_decimal_has_no_separator(n / 10);
        let d = decimal_bytes(n / 10);
        assert forall|i: int| 0 <= i < decimal_bytes(n).len() implies decimal_bytes(n)[i] != SLASH by {
            if i < d.len() {
                assert(decimal_bytes(n)[i] == d[i]);
                assert(!d.contains(SLASH));
                if d[i] == SLASH {
                    assert(d.contains(SLASH));
                }
            }
        }
    }
}

/// The stage file lies in the descriptor's own directory and is never the descriptor itself,
/// so staging never touches the descriptor.
pub proof fn stage_file_is_a_sibling_of_the_descriptor(final_path: Seq<u8>, pid: u32, sequence: u64)
    ensures
        directory_prefix(stage_path_bytes(final_path, pid, sequence)) == directory_prefix(final_path),
        stage_path_bytes(final_path, pid, sequence) != final_path,
        final_component(stage_path_bytes(final_path, pid, sequence))[0] == 46u8,
{
    let d = directory_prefix(final_path);
    let name = final_component(final_path);
    let stage = stage_name_bytes(name, pid, sequence);
    let path = stage_path_bytes(final_path, pid, sequence);
    final_path.index_of_last_ensures(SLASH);
    lemma_decimal_has_no_separator(pid as nat);
    lemma_decimal_has_no_separator(sequence as nat);
    let a = decimal_bytes(pid as nat);
    let b = decimal_bytes(sequence as nat);
    assert forall|i: int| 0 <= i < name.len() implies name[i] != SLASH by {
        match final_path.index_of_last(SLASH) {
            Some(k) => {
                assert(name[i] == final_path[k + 1 + i]);
            },
            None => {
                if name[i] == SLASH {
                    assert(final_path.contains(SLASH));
                }
            },
        }
    }
    assert forall|i: int| 0 <= i < stage.len() implies stage[i] != SLASH by {
        if 1 <= i < 1 + name.len() {
            assert(stage[i] == name[i - 1]);
        } else if 2 + name.len() <= i < 2 + name.len() + a.len() {
            assert(stage[i] == a[i - 2 - name.len()]);
            if a[i - 2 - name.len()] == SLASH {
                assert(a.contains(SLASH));
            }
        } else if 3 + name.len() + a.len() <= i {
            assert(stage[i] == b[i - 3 - name.len() - a.len()]);
            if b[i - 3 - name.len() - a.len()] == SLASH {
                assert(b.contains(SLASH));
            }
        }
    }
    assert(path.skip(d.len() as int) =~= stage);
    assert(path[d.len() as int] == 46u8);
    match final_path.index_of_last(SLASH) {
        Some(k) => {
            assert(d.len() == k + 1);
            assert(path[k] == SLASH);
            assert forall|j: int| k < j < path.len() implies path[j] != SLASH by {
                assert(path[j] == stage[j - k - 1]);
            }
            lemma_last_index(path, SLASH, k);
            assert(path.take(k + 1) =~= d);
            assert(path.len() > final_path.len());
        },
        None => {
            assert(d =~= Seq::<u8>::empty());
            assert(path =~= stage);
            path.index_of_last_ensures(SLASH);
            if path.index_of_last(SLASH) is Some {
                let i = path.index_of_last(SLASH)->0;
                assert(stage[i] == SLASH);
            }
            assert(path.len() > final_path.len());
        },
    }
}

/// A file that a failed publication left behind, by its path.
pub enum ResidueView {
    Stage(Seq<u8>),
    Final(Seq<u8>),
}

/// A failed publication: the text of its error and what it left behind.
pub struct FailureView {
    pub source: Seq<char>,
    pub residue: Option<ResidueView>,
}

impl View for DescriptorPublicationResidue {
    type V = ResidueView;

    open spec fn view(&self) -> ResidueView {
        match self {
            DescriptorPublicationResidue::Stage(path) => ResidueView::Stage(path@),
            DescriptorPublicationResidue::Final(path) => ResidueView::Final(path@),
        }
    }
}

impl View for DescriptorPublicationFailure {
    type V = FailureView;

    open spec fn view(&self) -> FailureView {
        FailureView {
            source: controller_error_text(self.source),
            residue: match self.residue {
                Some(residue) => Some(residue@),
                None => None,
            },
        }
    }
}

/// The next thing a publication does.
pub enum PublicationStep {
    /// Inspect the file at the descriptor path.
    Inspect,
    /// Create the stage file beside the descriptor, where no file is.
    CreateStage,
    /// Write, protect and sync the stage file.
    WriteStage,
    /// Rename the stage file onto the descriptor path, where no file is.
    RenameStage,
    /// Sync the descriptor's directory.
    SyncParent,
    /// Read the published descriptor back.
    Revalidate,
    /// Remove the stage file, then report this error.
    CleanStage(ControllerError),
    /// Nothing more: whether the descriptor changed, or the failure.
    Finished(Result<bool, DescriptorPublicationFailure>),
}

/// What the step that a publication asked for came to.
pub enum StepOutcome {
    /// What the descriptor path holds.
    Inspected(Result<DescriptorState, ControllerError>),
    Succeeded,
    Failed,
}

pub enum StepView {
    Inspect,
    CreateStage,
    WriteStage,
    RenameStage,
    SyncParent,
    Revalidate,
    CleanStage(Seq<char>),
    Finished(Result<bool, FailureView>),
}

pub enum OutcomeView {
    Inspected(Result<DescriptorState, Seq<char>>),
    Succeeded,
    Failed,
}

impl View for PublicationStep {
    type V = StepView;

    open spec fn view(&self) -> StepView {
        match self {
            PublicationStep::Inspect => StepView::Inspect,
            PublicationStep::CreateStage => StepView::CreateStage,
            PublicationStep::WriteStage => StepView::WriteStage,
            PublicationStep::RenameStage => StepView::RenameStage,
            PublicationStep::SyncParent => StepView::SyncParent,
            PublicationStep::Revalidate => StepView::Revalidate,
            PublicationStep::CleanStage(source) => StepView::CleanStage(controller_error_text(*source)),
            PublicationStep::Finished(Ok(changed)) => StepView::Finished(Ok(*changed)),
            PublicationStep::Finished(Err(failure)) => StepView::Finished(Err(failure@)),
        }
    }
}

impl View for StepOutcome {
    type V = OutcomeView;

    open spec fn view(&self) -> OutcomeView {
        match self {
            StepOutcome::Inspected(Ok(state)) => OutcomeView::Inspected(Ok(*state)),
            StepOutcome::Inspected(Err(error)) => OutcomeView::Inspected(Err(controller_error_text(*error))),
            StepOutcome::Succeeded => OutcomeView::Succeeded,
            StepOutcome::Failed => OutcomeView::Failed,
        }
    }
}

/// A publication that ends with a descriptor safety error and what it left behind.
pub open spec fn failed_with(reason: Seq<char>, residue: Option<ResidueView>) -> StepView {
    StepView::Finished(Err(FailureView { source: desktop_error_text(reason), residue }))
}

/// The step after `step` when it came to `outcome`, for the descriptor at `final_path` staged
/// at `stage_path`. An outcome that does not answer the step leaves it as it is, and a
/// finished publication stays finished.
pub open spec fn next_step(step: StepView, outcome: OutcomeView, final_path: Seq<u8>, stage_path: Seq<u8>) -> StepView {
    match step {
        StepView::Inspect => match outcome {
            OutcomeView::Inspected(Err(source)) => StepView::Finished(Err(FailureView { source, residue: None })),
            OutcomeView::Inspected(Ok(DescriptorState::Expected)) => StepView::Finished(Ok(false)),
            OutcomeView::Inspected(Ok(DescriptorState::Foreign)) => failed_with("Desktop descriptor is foreign"@, None),
            OutcomeView::Inspected(Ok(DescriptorState::Absent)) => StepView::CreateStage,
            _ => step,
        },
        StepView::CreateStage => match outcome {
            OutcomeView::Succeeded => StepView::WriteStage,
            OutcomeView::Failed => failed_with("descriptor stage file cannot be created safely"@, None),
            _ => step,
        },
        StepView::WriteStage => match outcome {
            OutcomeView::Succeeded => StepView::RenameStage,
            OutcomeView::Failed => StepView::CleanStage(
                desktop_error_text("descriptor stage file cannot be written or synced"@),
            ),
            _ => step,
        },
        StepView::RenameStage => match outcome {
            OutcomeView::Succeeded => StepView::SyncParent,
            OutcomeView::Failed => StepView::CleanStage(desktop_error_text("descriptor changed during publication"@)),
            _ => step,
        },
        StepView::SyncParent => match outcome {
            OutcomeView::Succeeded => StepView::Revalidate,
            OutcomeView::Failed => failed_with(
                "descriptor parent cannot be synced"@,
                Some(ResidueView::Final(final_path)),
            ),
            _ => step,
        },
        StepView::Revalidate => match outcome {
            OutcomeView::Inspected(Ok(DescriptorState::Expected)) => StepView::Finished(Ok(true)),
            OutcomeView::Inspected(Ok(_)) => failed_with(
                "descriptor cannot be revalidated after publication"@,
                Some(ResidueView::Final(final_path)),
            ),
            OutcomeView::Inspected(Err(source)) => StepView::Finished(
                Err(FailureView { source, residue: Some(ResidueView::Final(final_path)) }),
            ),
            _ => step,
        },
        StepView::CleanStage(source) => match outcome {
            OutcomeView::Succeeded => StepView::Finished(Err(FailureView { source, residue: None })),
            OutcomeView::Failed => StepView::Finished(
                Err(FailureView { source, residue: Some(ResidueView::Stage(stage_path)) }),
            ),
            _ => step,
        },
        StepView::Finished(_) => step,
    }
}

/// A finished publication stays finished; one reports a changed descriptor only on the
/// step that read back the expected descriptor after the rename, and an unchanged one only
/// where the first inspection found the expected descriptor.
pub proof fn publication_changes_only_after_revalidation(
    step: StepView,
    outcome: OutcomeView,
    final_path: Seq<u8>,
    stage_path: Seq<u8>,
)
    ensures
        step is Finished ==> next_step(step, outcome, final_path, stage_path) == step,
        !(step is Finished) && next_step(step, outcome, final_path, stage_path) == StepView::Finished(Ok(true))
            ==> step == StepView::Revalidate && outcome == OutcomeView::Inspected(Ok(DescriptorState::Expected)),
        !(step is Finished) && next_step(step, outcome, final_path, stage_path) == StepView::Finished(Ok(false))
            ==> step == StepView::Inspect && outcome == OutcomeView::Inspected(Ok(DescriptorState::Expected)),
{
}

/// Where a publication stands after the steps came to `outcomes` in turn.
pub open spec fn run(step: StepView, outcomes: Seq<OutcomeView>, final_path: Seq<u8>, stage_path: Seq<u8>) -> StepView
    decreases outcomes.len(),
{
    if outcomes.len() == 0 {
        step
    } else {
        run(next_step(step, outcomes[0], final_path, stage_path), outcomes.drop_first(), final_path, stage_path)
    }
}

/// Whether, in a run from `step`, a step of the kind `at` came to `outcome`.
pub open spec fn occurs_in(
    step: StepView,
    outcomes: Seq<OutcomeView>,
    final_path: Seq<u8>,
    stage_path: Seq<u8>,
    at: spec_fn(StepView) -> bool,
    outcome: OutcomeView,
) -> bool {
    exists|i: int|
        0 <= i < outcomes.len() && at(run(step, outcomes.take(i), final_path, stage_path)) && #[trigger] outcomes[i]
            == outcome
}

pub open spec fn is_create_stage(step: StepView) -> bool {
    step is CreateStage
}

pub open spec fn is_rename_stage(step: StepView) -> bool {
    step is RenameStage
}

pub open spec fn is_clean_stage(step: StepView) -> bool {
    step is CleanStage
}

/// The steps while the stage file exists and before it was renamed into place.
pub open spec fn is_staged(step: StepView) -> bool {
    step is WriteStage || step is RenameStage || step is CleanStage
}

/// The steps after the stage was renamed into place and before the publication finished.
pub open spec fn is_after_rename(step: StepView) -> bool {
    step is SyncParent || step is Revalidate
}

proof fn lemma_run_finished(step: StepView, outcomes: Seq<OutcomeView>, final_path: Seq<u8>, stage_path: Seq<u8>)
    requires
        step is Finished,
    ensures
        run(step, outcomes, final_path, stage_path) == step,
    decreases outcomes.len(),
{
    if outcomes.len() > 0 {
        lemma_run_finished(step, outcomes.drop_first(), final_path, stage_path);
    }
}

proof fn lemma_run_shift(step: StepView, outcomes: Seq<OutcomeView>, final_path: Seq<u8>, stage_path: Seq<u8>, i: int)
    requires
        1 <= i <= outcomes.len(),
    ensures
        run(step, outcomes.take(i), final_path, stage_path) == run(
            next_step(step, outcomes[0], final_path, stage_path),
            outcomes.drop_first().take(i - 1),
            final_path,
            stage_path,
        ),
{
    assert(outcomes.take(i).drop_first() =~= outcomes.drop_first().take(i - 1));
    assert(outcomes.take(i)[0] == outcomes[0]);
}

/// An event of a run either happens on its first step or in the run from the second step on;
/// after a finished step, no event of a kind that no finished step is happens at all.
proof fn lemma_occurs_shift(
    step: StepView,
    outcomes: Seq<OutcomeView>,
    final_path: Seq<u8>,
    stage_path: Seq<u8>,
    at: spec_fn(StepView) -> bool,
    outcome: OutcomeView,
)
    requires
        outcomes.len() > 0,
        forall|s: StepView| s is Finished ==> !#[trigger] at(s),
    ensures
        occurs_in(step, outcomes, final_path, stage_path, at, outcome) <==> ((at(step) && outcomes[0] == outcome)
            || occurs_in(next_step(step, outcomes[0], final_path, stage_path), outcomes.drop_first(), final_path, stage_path, at, outcome)),
        next_step(step, outcomes[0], final_path, stage_path) is Finished ==> !occurs_in(
            next_step(step, outcomes[0], final_path, stage_path),
            outcomes.drop_first(),
            final_path,
            stage_path,
            at,
            outcome,
        ),
{
    let next = next_step(step, outcomes[0], final_path, stage_path);
    let rest = outcomes.drop_first();
    assert(outcomes.take(0) =~= Seq::<OutcomeView>::empty());
    if occurs_in(next, rest, final_path, stage_path, at, outcome) {
        let j = choose|j: int|
            0 <= j < rest.len() && at(run(next, rest.take(j), final_path, stage_path)) && #[trigger] rest[j] == outcome;
        lemma_run_shift(step, outcomes, final_path, stage_path, j + 1);
        assert(outcomes[j + 1] == rest[j]);
        if next is Finished {
            lemma_run_finished(next, rest.take(j), final_path, stage_path);
        }
    }
    if occurs_in(step, outcomes, final_path, stage_path, at, outcome) {
        let i = choose|i: int|
            0 <= i < outcomes.len() && at(run(step, outcomes.take(i), final_path, stage_path)) && #[trigger] outcomes[i]
                == outcome;
        if i >= 1 {
            lemma_run_shift(step, outcomes, final_path, stage_path, i);
            assert(rest[i - 1] == outcomes[i]);
        }
    }
}

/// Whatever the outcomes, a publication that ends with a changed descriptor went through a
/// revalidation that read back the expected descriptor.
pub proof fn changed_publication_was_revalidated(
    step: StepView,
    outcomes: Seq<OutcomeView>,
    final_path: Seq<u8>,
    stage_path: Seq<u8>,
)
    requires
        step != StepView::Finished(Ok(true)),
        run(step, outcomes, final_path, stage_path) == StepView::Finished(Ok(true)),
    ensures
        exists|i: int|
            0 <= i < outcomes.len() && run(step, outcomes.take(i), final_path, stage_path) == StepView::Revalidate
                && #[trigger] outcomes[i] == OutcomeView::Inspected(Ok(DescriptorState::Expected)),
    decreases outcomes.len(),
{
    let next = next_step(step, outcomes[0], final_path, stage_path);
    assert(outcomes.take(0) =~= Seq::<OutcomeView>::empty());
    if next == StepView::Finished(Ok(true)) {
        publication_changes_only_after_revalidation(step, outcomes[0], final_path, stage_path);
    } else {
        let rest = outcomes.drop_first();
        changed_publication_was_revalidated(next, rest, final_path, stage_path);
        let j = choose|j: int|
            0 <= j < rest.len() && run(next, rest.take(j), final_path, stage_path) == StepView::Revalidate
                && #[trigger] rest[j] == OutcomeView::Inspected(Ok(DescriptorState::Expected));
        lemma_run_shift(step, outcomes, final_path, stage_path, j + 1);
        assert(outcomes[j + 1] == rest[j]);
    }
}

/// Whatever the outcomes, a publication that fails names exactly the managed file it left
/// behind:
/// - the descriptor path exactly when the stage was renamed into place (during the run, or
///   before it);
/// - the stage path exactly when removing the stage file was not verified;
/// - nothing where no stage file was created and nothing was renamed;
/// and never any other file.
pub proof fn failure_names_exact_residue(
    step: StepView,
    outcomes: Seq<OutcomeView>,
    final_path: Seq<u8>,
    stage_path: Seq<u8>,
)
    requires
        !(step is Finished),
        run(step, outcomes, final_path, stage_path) matches StepView::Finished(Err(_)),
    ensures
        run(step, outcomes, final_path, stage_path) matches StepView::Finished(Err(failure)) && {
            &&& failure.residue == Some(ResidueView::Final(final_path)) <==> (is_after_rename(step)
                || occurs_in(step, outcomes, final_path, stage_path, |s: StepView| is_rename_stage(s), OutcomeView::Succeeded))
            &&& failure.residue == Some(ResidueView::Stage(stage_path)) <==> occurs_in(
                step,
                outcomes,
                final_path,
                stage_path,
                |s: StepView| is_clean_stage(s),
                OutcomeView::Failed,
            )
            &&& !is_staged(step) && !is_after_rename(step) && !occurs_in(
                step,
                outcomes,
                final_path,
                stage_path,
                |s: StepView| is_create_stage(s),
                OutcomeView::Succeeded,
            ) ==> failure.residue is None
            &&& failure.residue is None || failure.residue == Some(ResidueView::Final(final_path))
                || failure.residue == Some(ResidueView::Stage(stage_path))
        },
    decreases outcomes.len(),
{
    let next = next_step(step, outcomes[0], final_path, stage_path);
    let rest = outcomes.drop_first();
    let renamed = |s: StepView| is_rename_stage(s);
    let cleaned = |s: StepView| is_clean_stage(s);
    let created = |s: StepView| is_create_stage(s);
    lemma_occurs_shift(step, outcomes, final_path, stage_path, renamed, OutcomeView::Succeeded);
    lemma_occurs_shift(step, outcomes, final_path, stage_path, cleaned, OutcomeView::Failed);
    lemma_occurs_shift(step, outcomes, final_path, stage_path, created, OutcomeView::Succeeded);
    if next is Finished {
        lemma_run_finished(next, rest, final_path, stage_path);
    } else {
        failure_names_exact_residue(next, rest, final_path, stage_path);
    }
}

/// A publication of the descriptor at one path.
pub struct DescriptorPublication {
    final_path: Vec<u8>,
    stage_name: Vec<u8>,
    stage_path: Vec<u8>,
    step: PublicationStep,
}

pub struct PublicationView {
    pub final_path: Seq<u8>,
    pub stage_name: Seq<u8>,
    pub stage_path: Seq<u8>,
    pub step: StepView,
}

impl View for DescriptorPublication {
    type V = PublicationView;

    closed spec fn view(&self) -> PublicationView {
        PublicationView {
            final_path: self.final_path@,
            stage_name: self.stage_name@,
            stage_path: self.stage_path@,
            step: self.step@,
        }
    }
}

impl DescriptorPublication {
    /// A publication of the descriptor at `final_path` by process `pid` as its
    /// `sequence`-th stage, which first inspects that path.
    pub fn new(final_path: Vec<u8>, pid: u32, sequence: u64) -> (publication: Self)
        ensures
            publication@ == (PublicationView {
                final_path: final_path@,
                stage_name: stage_name_bytes(final_component(final_path@), pid, sequence),
                stage_path: stage_path_bytes(final_path@, pid, sequence),
                step: StepView::Inspect,
            }),
    {
        let (stage_name, stage_path) = stage_file(final_path.as_slice(), pid, sequence);
        DescriptorPublication { final_path, stage_name, stage_path, step: PublicationStep::Inspect }
    }

    /// The step that the publication asks for.
    pub fn step(&self) -> (step: &PublicationStep)
        ensures
            step@ == self@.step,
    {
        &self.step
    }

    /// The name of the stage file in the descriptor's directory.
    pub fn stage_name(&self) -> (name: &[u8])
        ensures
            name@ == self@.stage_name,
    {
        self.stage_name.as_slice()
    }

    /// Goes on from what the asked-for step came to.
    pub fn advance(&mut self, outcome: StepOutcome)
        ensures
            final(self)@ == (PublicationView {
                step: next_step(old(self)@.step, outcome@, old(self)@.final_path, old(self)@.stage_path),
                ..old(self)@
            }),
    {
        let mut current = PublicationStep::Inspect;
        std::mem::swap(&mut current, &mut self.step);
        let next = match current {
            PublicationStep::Inspect => match outcome {
                StepOutcome::Inspected(Err(source)) => PublicationStep::Finished(
                    Err(DescriptorPublicationFailure::clean(source)),
                ),
                StepOutcome::Inspected(Ok(DescriptorState::Expected)) => PublicationStep::Finished(Ok(false)),
                StepOutcome::Inspected(Ok(DescriptorState::Foreign)) => PublicationStep::Finished(
                    Err(DescriptorPublicationFailure::clean(desktop_error("Desktop descriptor is foreign"))),
                ),
                StepOutcome::Inspected(Ok(DescriptorState::Absent)) => PublicationStep::CreateStage,
                _ => PublicationStep::Inspect,
            },
            PublicationStep::CreateStage => match outcome {
                StepOutcome::Succeeded => PublicationStep::WriteStage,
                StepOutcome::Failed => PublicationStep::Finished(
                    Err(
                        DescriptorPublicationFailure::clean(
                            desktop_error("descriptor stage file cannot be created safely"),
                        ),
                    ),
                ),
                _ => PublicationStep::CreateStage,
            },
            PublicationStep::WriteStage => match outcome {
                StepOutcome::Succeeded => PublicationStep::RenameStage,
                StepOutcome::Failed => PublicationStep::CleanStage(
                    desktop_error("descriptor stage file cannot be written or synced"),
                ),
                _ => PublicationStep::WriteStage,
            },
            PublicationStep::RenameStage => match outcome {
                StepOutcome::Succeeded => PublicationStep::SyncParent,
                StepOutcome::Failed => PublicationStep::CleanStage(desktop_error("descriptor changed during publication")),
                _ => PublicationStep::RenameStage,
            },
            PublicationStep::SyncParent => match outcome {
                StepOutcome::Succeeded => PublicationStep::Revalidate,
                StepOutcome::Failed => PublicationStep::Finished(
                    Err(
                        DescriptorPublicationFailure {
                            source: desktop_error("descriptor parent cannot be synced"),
                            residue: Some(DescriptorPublicationResidue::Final(self.final_path.clone())),
                        },
                    ),
                ),
                _ => PublicationStep::SyncParent,
            },
            PublicationStep::Revalidate => match outcome {
                StepOutcome::Inspected(Ok(DescriptorState::Expected)) => PublicationStep::Finished(Ok(true)),
                StepOutcome::Inspected(Ok(_)) => PublicationStep::Finished(
                    Err(
                        DescriptorPublicationFailure {
                            source: desktop_error("descriptor cannot be revalidated after publication"),
                            residue: Some(DescriptorPublicationResidue::Final(self.final_path.clone())),
                        },
                    ),
                ),
                StepOutcome::Inspected(Err(source)) => PublicationStep::Finished(
                    Err(
                        DescriptorPublicationFailure {
                            source,
                            residue: Some(DescriptorPublicationResidue::Final(self.final_path.clone())),
                        },
                    ),
                ),
                _ => PublicationStep::Revalidate,
            },
            PublicationStep::CleanStage(source) => match outcome {
                StepOutcome::Succeeded => PublicationStep::Finished(Err(DescriptorPublicationFailure::clean(source))),
                StepOutcome::Failed => PublicationStep::Finished(
                    Err(
                        DescriptorPublicationFailure {
                            source,
                            residue: Some(DescriptorPublicationResidue::Stage(self.stage_path.clone())),
                        },
                    ),
                ),
                _ => PublicationStep::CleanStage(source),
            },
            PublicationStep::Finished(result) => PublicationStep::Finished(result),
        };
        self.step = next;
    }

    /// What the publication came to, once it has finished: whether the descriptor changed,
    /// or the failure and what it left behind.
    pub fn outcome(self) -> (result: Option<Result<bool, DescriptorPublicationFailure>>)
        ensures
            match self@.step {
                StepView::Finished(Ok(changed)) => result == Some(Ok::<bool, DescriptorPublicationFailure>(changed)),
                StepView::Finished(Err(failure)) => result matches Some(Err(f)) && f@ == failure,
                _ => result is None,
            },
    {
        match self.step {
            PublicationStep::Finished(result) => Some(result),
            _ => None,
        }
    }
}

} // verus!
