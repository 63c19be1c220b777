//! The three compute kernels of a frame and the registry that decides which
//! source text is live for each of them.
//!
//! The shader front end is the caller's: a source comes to the registry
//! together with what the front end said of it. A source that was accepted
//! replaces the live one under a new identity; a source that was turned down
//! leaves the registry exactly as it was.

use vstd::prelude::*;

verus! {

/// The passes of a frame that run a kernel.
#[derive(Clone, Copy, Debug, PartialEq, Eq, Hash, Structural)]
pub enum KernelKind {
    /// Moves the agents and lets them deposit.
    Move,
    /// Diffuses and decays the field.
    Update,
    /// Turns the field into the displayable texture.
    Convert,
}

/// Identity of a compiled pipeline: the kernel it belongs to and the
/// generation of that kernel's source.
#[derive(Clone, Copy, Debug, PartialEq, Eq, Hash, Structural)]
pub struct PipelineId {
    pub kind: KernelKind,
    pub generation: u64,
}

/// What the shader front end said of a source.
#[derive(Debug, PartialEq, Eq)]
pub enum Verdict {
    /// The source compiles.
    Accepted,
    /// The source does not compile; the front end's report says why.
    Rejected(String),
}

/// Mathematical content of a [`Verdict`].
pub enum VerdictView {
    Accepted,
    Rejected(Seq<char>),
}

impl View for Verdict {
    type V = VerdictView;

    open spec fn view(&self) -> VerdictView {
        match *self {
            Verdict::Accepted => VerdictView::Accepted,
            Verdict::Rejected(report) => VerdictView::Rejected(report@),
        }
    }
}

/// A source together with the front end's verdict on it.
#[derive(Debug, PartialEq, Eq)]
pub struct CheckedSource {
    pub source: String,
    pub verdict: Verdict,
}

/// Mathematical content of a [`CheckedSource`].
pub struct CheckedView {
    pub source: Seq<char>,
    pub verdict: VerdictView,
}

impl View for CheckedSource {
    type V = CheckedView;

    open spec fn view(&self) -> CheckedView {
        CheckedView { source: self.source@, verdict: self.verdict@ }
    }
}

/// A source that the front end turned down.
#[derive(Debug, PartialEq, Eq)]
pub struct CompileError {
    /// The kernel that the source was meant for.
    pub kind: KernelKind,
    /// The offending source, whole.
    pub source: String,
    /// The front end's report.
    pub report: String,
}

/// Mathematical content of a [`CompileError`].
pub struct CompileErrorView {
    pub kind: KernelKind,
    pub source: Seq<char>,
    pub report: Seq<char>,
}

impl View for CompileError {
    type V = CompileErrorView;

    open spec fn view(&self) -> CompileErrorView {
        CompileErrorView { kind: self.kind, source: self.source@, report: self.report@ }
    }
}

impl CheckedView {
    /// Whether the front end accepted the source.
    pub open spec fn accepted(self) -> bool {
        self.verdict is Accepted
    }

    /// The error that a source meant for `kind` gives, if it was turned down:
    /// the kernel, the whole source and the front end's report, unchanged.
    pub open spec fn rejection(self, kind: KernelKind) -> Option<CompileErrorView> {
        match self.verdict {
            VerdictView::Accepted => None,
            VerdictView::Rejected(report) => Some(
                CompileErrorView { kind, source: self.source, report },
            ),
        }
    }
}

/// The generation after `g`; the one after the last is the first again.
pub open spec fn next_generation(g: u64) -> u64 {
    if g == u64::MAX {
        0
    } else {
        (g + 1) as u64
    }
}

/// Mathematical content of one slot of the registry.
pub struct KernelView {
    pub generation: u64,
    pub source: Seq<char>,
}

/// Mathematical content of a [`KernelRegistry`].
pub struct RegistryView {
    pub move_kernel: KernelView,
    pub update_kernel: KernelView,
    pub convert_kernel: KernelView,
}

impl RegistryView {
    /// The slot of `kind`.
    pub open spec fn kernel(self, kind: KernelKind) -> KernelView {
        match kind {
            KernelKind::Move => self.move_kernel,
            KernelKind::Update => self.update_kernel,
            KernelKind::Convert => self.convert_kernel,
        }
    }

    /// Identity of the pipeline that is live for `kind`.
    pub open spec fn pipeline(self, kind: KernelKind) -> PipelineId {
        PipelineId { kind, generation: self.kernel(kind).generation }
    }

    /// The registry with `source` live for `kind` under the next generation.
    pub open spec fn replaced(self, kind: KernelKind, source: Seq<char>) -> RegistryView {
        let fresh = KernelView { generation: next_generation(self.kernel(kind).generation), source };
        match kind {
            KernelKind::Move => RegistryView { move_kernel: fresh, ..self },
            KernelKind::Update => RegistryView { update_kernel: fresh, ..self },
            KernelKind::Convert => RegistryView { convert_kernel: fresh, ..self },
        }
    }

    /// The registry after a load of `source` for `kind` that the front end
    /// accepted or turned down.
    pub open spec fn loaded(self, kind: KernelKind, source: Seq<char>, accepted: bool) -> RegistryView {
        if accepted {
            self.replaced(kind, source)
        } else {
            self
        }
    }
}

/// A load that is turned down leaves every pipeline's identity and source as
/// they were. A load that is accepted gives the kernel it was meant for a
/// new identity and the new source, and leaves the other kernels alone.
pub proof fn lemma_load_identity(r: RegistryView, kind: KernelKind, source: Seq<char>, other: KernelKind)
    ensures
        r.loaded(kind, source, false) == r,
        r.loaded(kind, source, true).pipeline(kind) != r.pipeline(kind),
        r.loaded(kind, source, true).kernel(kind).source == source,
        other != kind ==> r.loaded(kind, source, true).kernel(other) == r.kernel(other),
{
}

struct Kernel {
    generation: u64,
    source: String,
}

/// The live source and pipeline identity of each kernel.
pub struct KernelRegistry {
    move_kernel: Kernel,
    update_kernel: Kernel,
    convert_kernel: Kernel,
}

impl View for Kernel {
    type V = KernelView;

    closed spec fn view(&self) -> KernelView {
        KernelView { generation: self.generation, source: self.source@ }
    }
}

impl View for KernelRegistry {
    type V = RegistryView;

    closed spec fn view(&self) -> RegistryView {
        RegistryView {
            move_kernel: self.move_kernel@,
            update_kernel: self.update_kernel@,
            convert_kernel: self.convert_kernel@,
        }
    }
}

/// The first registry: each source live under generation 0.
pub open spec fn initial_registry(
    move_source: Seq<char>,
    update_source: Seq<char>,
    convert_source: Seq<char>,
) -> RegistryView {
    RegistryView {
        move_kernel: KernelView { generation: 0, source: move_source },
        update_kernel: KernelView { generation: 0, source: update_source },
        convert_kernel: KernelView { generation: 0, source: convert_source },
    }
}

/// Hands an accepted source on and turns a rejected one into the error.
fn settle(kind: KernelKind, checked: CheckedSource) -> (r: Result<String, CompileError>)
    ensures
        match r {
            Ok(text) => checked@.accepted() && text@ == checked@.source,
            Err(e) => checked@.rejection(kind) == Some(e@),
        },
{
    let CheckedSource { source, verdict } = checked;
    match verdict {
        Verdict::Accepted => Ok(source),
        Verdict::Rejected(report) => Err(CompileError { kind, source, report }),
    }
}

impl KernelRegistry {
    /// Makes the first registry from the three sources, looked at in the
    /// order move, update, convert; the first of them that the front end
    /// turned down is the error.
    pub fn new(
        move_kernel: CheckedSource,
        update_kernel: CheckedSource,
        convert_kernel: CheckedSource,
    ) -> (r: Result<KernelRegistry, CompileError>)
        ensures
            match r {
                Ok(registry) => {
                    &&& move_kernel@.accepted()
                    &&& update_kernel@.accepted()
                    &&& convert_kernel@.accepted()
                    &&& registry@ == initial_registry(
                        move_kernel@.source,
                        update_kernel@.source,
                        convert_kernel@.source,
                    )
                },
                Err(e) => Some(e@) == if !move_kernel@.accepted() {
                    move_kernel@.rejection(KernelKind::Move)
                } else if !update_kernel@.accepted() {
                    update_kernel@.rejection(KernelKind::Update)
                } else {
                    convert_kernel@.rejection(KernelKind::Convert)
                },
            },
    {
        let move_text = match settle(KernelKind::Move, move_kernel) {
            Ok(text) => text,
            Err(e) => {
                return Err(e);
            },
        };
        let update_text = match settle(KernelKind::Update, update_kernel) {
            Ok(text) => text,
            Err(e) => {
                return Err(e);
            },
        };
        let convert_text = match settle(KernelKind::Convert, convert_kernel) {
            Ok(text) => text,
            Err(e) => {
                return Err(e);
            },
        };
        Ok(
            KernelRegistry {
                move_kernel: Kernel { generation: 0, source: move_text },
                update_kernel: Kernel { generation: 0, source: update_text },
                convert_kernel: Kernel { generation: 0, source: convert_text },
            },
        )
    }

    /// Identity of the pipeline that is live for `kind`.
    pub fn current_pipeline(&self, kind: KernelKind) -> (id: PipelineId)
        ensures
            id == self@.pipeline(kind),
    {
        let generation = match kind {
            KernelKind::Move => self.move_kernel.generation,
            KernelKind::Update => self.update_kernel.generation,
            KernelKind::Convert => self.convert_kernel.generation,
        };
        PipelineId { kind, generation }
    }

    /// The source that is live for `kind`.
    pub fn current_source(&self, kind: KernelKind) -> (source: &str)
        ensures
            source@ == self@.kernel(kind).source,
    {
        match kind {
            KernelKind::Move => self.move_kernel.source.as_str(),
            KernelKind::Update => self.update_kernel.source.as_str(),
            KernelKind::Convert => self.convert_kernel.source.as_str(),
        }
    }

    /// Loads a source for `kind`. If the front end accepted it, it becomes
    /// the live source under a new identity, which is returned. If the front
    /// end turned it down, nothing changes: the pipeline that was live stays
    /// live, and the error carries the kernel, the whole source and the front
    /// end's report.
    pub fn load(&mut self, kind: KernelKind, checked: CheckedSource) -> (r: Result<
        PipelineId,
        CompileError,
    >)
        ensures
            final(self)@ == old(self)@.loaded(kind, checked@.source, checked@.accepted()),
            match r {
                Ok(id) => {
                    &&& checked@.accepted()
                    &&& id == final(self)@.pipeline(kind)
                    &&& id != old(self)@.pipeline(kind)
                },
                Err(e) => checked@.rejection(kind) == Some(e@),
            },
    {
        match settle(kind, checked) {
            Ok(source) => {
                let old_generation = self.current_pipeline(kind).generation;
                let generation = if old_generation == u64::MAX {
                    0
                } else {
                    old_generation + 1
                };
                let fresh = Kernel { generation, source };
                match kind {
                    KernelKind::Move => {
                        self.move_kernel = fresh;
                    },
                    KernelKind::Update => {
                        self.update_kernel = fresh;
                    },
                    KernelKind::Convert => {
                        self.convert_kernel = fresh;
                    },
                }
                Ok(PipelineId { kind, generation })
            },
            Err(e) => Err(e),
        }
    }
}

} // verus!
