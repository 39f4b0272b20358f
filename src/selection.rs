//! Choosing one module among the candidates a resolver returned for a
//! locator.
//!
//! The choice is a small state machine: it asks for the enablement of one
//! candidate at a time, in the resolver's order, and stops at the first
//! answer that decides. Callers whose enablement check suspends drive the
//! machine with [`first_step`] and [`next_step`]; callers that already hold
//! every answer use [`pick_module`].

use vstd::prelude::*;
use crate::status::{EX_IOERR, EX_SOFTWARE, EX_UNAVAILABLE};

verus! {

/// What the registry answered when asked whether a module is enabled.
#[derive(Clone, Copy, Debug, PartialEq, Eq)]
pub enum Enablement {
    Enabled,
    Disabled,
    /// The question itself failed (an I/O error, say).
    CheckFailed,
}

/// Why no module was selected.
#[derive(Clone, Copy, Debug, PartialEq, Eq)]
pub enum SelectionError {
    /// An explicit module name matched none of the candidates.
    NoSuchNamedModule,
    /// The explicitly named candidate at `index` is disabled.
    NamedModuleDisabled { index: usize },
    /// All `count` candidates are disabled (`count` is zero when there were
    /// none at all).
    NoEnabledCandidate { count: usize },
    /// Asking whether the candidate at `index` is enabled failed.
    EnablementCheckFailed { index: usize },
}

/// One move of the selection.
#[derive(Clone, Copy, Debug, PartialEq, Eq)]
pub enum PickStep {
    /// Ask whether the candidate at this index is enabled, then call
    /// [`next_step`] with the answer.
    Query(usize),
    /// The candidate at this index is the selected module.
    Selected(usize),
    /// Selection is over and failed.
    Failed(SelectionError),
}

/// The names of the candidates, as character sequences.
pub open spec fn names_of(candidates: Seq<String>) -> Seq<Seq<char>> {
    candidates.map_values(|s: String| s@)
}

/// The explicit name filter, as a character sequence.
pub open spec fn filter_view(filter: Option<&String>) -> Option<Seq<char>> {
    match filter {
        Some(f) => Some(f@),
        None => None,
    }
}

/// The first index at or after `from` whose name is `name`.
pub open spec fn first_named(names: Seq<Seq<char>>, name: Seq<char>, from: int) -> Option<int>
    decreases names.len() - from,
{
    if from < 0 || from >= names.len() {
        None
    } else if names[from] == name {
        Some(from)
    } else {
        first_named(names, name, from + 1)
    }
}

/// Automatic selection resumed at index `from`: the first enabled candidate,
/// skipping disabled ones, unless a check fails first.
pub open spec fn first_enabled_from(enabled: Seq<Enablement>, from: int) -> Result<usize, SelectionError>
    decreases enabled.len() - from,
{
    if from < 0 || from >= enabled.len() {
        Err(SelectionError::NoEnabledCandidate { count: enabled.len() as usize })
    } else {
        match enabled[from] {
            Enablement::Enabled => Ok(from as usize),
            Enablement::Disabled => first_enabled_from(enabled, from + 1),
            Enablement::CheckFailed => Err(SelectionError::EnablementCheckFailed { index: from as usize }),
        }
    }
}

/// The outcome of selecting among candidates `names`, whose enablement is
/// `enabled`, with an optional explicit name.
pub open spec fn selection(
    names: Seq<Seq<char>>,
    filter: Option<Seq<char>>,
    enabled: Seq<Enablement>,
) -> Result<usize, SelectionError> {
    match filter {
        Some(name) => match first_named(names, name, 0) {
            None => Err(SelectionError::NoSuchNamedModule),
            Some(i) => match enabled[i] {
                Enablement::Enabled => Ok(i as usize),
                Enablement::Disabled => Err(SelectionError::NamedModuleDisabled { index: i as usize }),
                Enablement::CheckFailed => Err(SelectionError::EnablementCheckFailed { index: i as usize }),
            },
        },
        None => first_enabled_from(enabled, 0),
    }
}

/// The first move of a selection among `names`.
pub open spec fn initial_step(names: Seq<Seq<char>>, filter: Option<Seq<char>>) -> PickStep {
    match filter {
        Some(name) => match first_named(names, name, 0) {
            None => PickStep::Failed(SelectionError::NoSuchNamedModule),
            Some(i) => PickStep::Query(i as usize),
        },
        None => if names.len() == 0 {
            PickStep::Failed(SelectionError::NoEnabledCandidate { count: 0 })
        } else {
            PickStep::Query(0)
        },
    }
}

/// The move that follows the answer `answer` about candidate `asked`, among
/// `count` candidates.
pub open spec fn step_after(explicit: bool, count: nat, asked: nat, answer: Enablement) -> PickStep {
    match answer {
        Enablement::Enabled => PickStep::Selected(asked as usize),
        Enablement::CheckFailed => PickStep::Failed(SelectionError::EnablementCheckFailed { index: asked as usize }),
        Enablement::Disabled => if explicit {
            PickStep::Failed(SelectionError::NamedModuleDisabled { index: asked as usize })
        } else if asked + 1 < count {
            PickStep::Query((asked + 1) as usize)
        } else {
            PickStep::Failed(SelectionError::NoEnabledCandidate { count: count as usize })
        },
    }
}

/// The index of the first candidate named `name`, if any.
fn find_named(candidates: &Vec<String>, name: &String) -> (r: Option<usize>)
    ensures
        r == (match first_named(names_of(candidates@), name@, 0) {
            Some(i) => Some(i as usize),
            None => None::<usize>,
        }),
{
    let ghost names = names_of(candidates@);
    let mut i: usize = 0;
    while i < candidates.len()
        invariant
            i <= candidates.len(),
            names == names_of(candidates@),
            first_named(names, name@, 0) == first_named(names, name@, i as int),
        decreases candidates.len() - i,
    {
        if candidates[i] == *name {
            return Some(i);
        }
        i = i + 1;
    }
    None
}

/// Starts a selection among `candidates`, in their given order, optionally
/// restricted to the candidate named `filter`.
pub fn first_step(candidates: &Vec<String>, filter: Option<&String>) -> (r: PickStep)
    ensures
        r == initial_step(names_of(candidates@), filter_view(filter)),
        r matches PickStep::Query(i) ==> i < candidates.len(),
{
    match filter {
        Some(name) => match find_named(candidates, name) {
            None => PickStep::Failed(SelectionError::NoSuchNamedModule),
            Some(i) => {
                proof {
                    lemma_first_named_in_range(names_of(candidates@), name@, 0);
                }
                PickStep::Query(i)
            },
        },
        None => if candidates.len() == 0 {
            PickStep::Failed(SelectionError::NoEnabledCandidate { count: 0 })
        } else {
            PickStep::Query(0)
        },
    }
}

/// Continues a selection among `count` candidates after the enablement of
/// candidate `asked` came back as `answer`; `explicit` tells whether the
/// selection was started with an explicit name.
pub fn next_step(count: usize, explicit: bool, asked: usize, answer: Enablement) -> (r: PickStep)
    requires
        asked < count,
    ensures
        r == step_after(explicit, count as nat, asked as nat, answer),
        r matches PickStep::Query(i) ==> asked < i < count,
{
    match answer {
        Enablement::Enabled => PickStep::Selected(asked),
        Enablement::CheckFailed => PickStep::Failed(SelectionError::EnablementCheckFailed { index: asked }),
        Enablement::Disabled => if explicit {
            PickStep::Failed(SelectionError::NamedModuleDisabled { index: asked })
        } else if asked + 1 < count {
            PickStep::Query(asked + 1)
        } else {
            PickStep::Failed(SelectionError::NoEnabledCandidate { count })
        },
    }
}

/// Selects a module among `candidates` when the enablement of each is
/// already known: `enabled[i]` is the answer for `candidates[i]`. Only the
/// answers the selection asks for are read.
pub fn pick_module(candidates: &Vec<String>, filter: Option<&String>, enabled: &Vec<Enablement>) -> (r: Result<usize, SelectionError>)
    requires
        enabled.len() == candidates.len(),
    ensures
        r == selection(names_of(candidates@), filter_view(filter), enabled@),
        r matches Ok(i) ==> i < candidates.len() && enabled@[i as int] == Enablement::Enabled,
{
    let ghost names = names_of(candidates@);
    let ghost outcome = selection(names, filter_view(filter), enabled@);
    let count = candidates.len();
    let explicit = filter.is_some();
    let mut step = first_step(candidates, filter);
    proof {
        if filter is Some {
            lemma_first_named_in_range(names, filter_view(filter)->0, 0);
        }
    }
    loop
        invariant
            count == candidates.len() == enabled.len(),
            names == names_of(candidates@),
            outcome == selection(names, filter_view(filter), enabled@),
            explicit == filter is Some,
            step matches PickStep::Query(i) ==> i < count,
            step matches PickStep::Query(i) ==> (explicit ==> first_named(names, filter_view(filter)->0, 0) == Some(i as int)),
            step matches PickStep::Query(i) ==> (!explicit ==> first_enabled_from(enabled@, i as int) == outcome),
            step matches PickStep::Selected(i) ==> outcome == Ok::<usize, SelectionError>(i),
            step matches PickStep::Failed(e) ==> outcome == Err::<usize, SelectionError>(e),
        decreases
            (match step {
                PickStep::Query(i) => count - i,
                _ => 0,
            }),
    {
        match step {
            PickStep::Query(i) => {
                step = next_step(count, explicit, i, enabled[i]);
                proof {
                    // One more unfolding covers the last candidate being disabled.
                    assert(i + 1 >= count ==> first_enabled_from(enabled@, i as int + 1)
                        == Err::<usize, SelectionError>(SelectionError::NoEnabledCandidate { count }));
                }
            },
            PickStep::Selected(i) => {
                proof {
                    lemma_selected_is_enabled(names, filter_view(filter), enabled@);
                }
                return Ok(i);
            },
            PickStep::Failed(e) => {
                return Err(e);
            },
        }
    }
}

proof fn lemma_first_named_in_range(names: Seq<Seq<char>>, name: Seq<char>, from: int)
    ensures
        first_named(names, name, from) matches Some(i) ==> from <= i < names.len() && names[i] == name,
    decreases names.len() - from,
{
    if 0 <= from < names.len() && names[from] != name {
        lemma_first_named_in_range(names, name, from + 1);
    }
}

proof fn lemma_first_enabled_from_shape(enabled: Seq<Enablement>, from: int)
    requires
        0 <= from,
        enabled.len() <= usize::MAX,
    ensures
        first_enabled_from(enabled, from) matches Ok(i) ==> from <= i < enabled.len()
            && enabled[i as int] == Enablement::Enabled
            && forall|j: int| from <= j < i ==> enabled[j] == Enablement::Disabled,
        first_enabled_from(enabled, from) matches Err(SelectionError::EnablementCheckFailed { index })
            ==> from <= index < enabled.len()
            && enabled[index as int] == Enablement::CheckFailed
            && forall|j: int| from <= j < index ==> enabled[j] == Enablement::Disabled,
        first_enabled_from(enabled, from) matches Err(SelectionError::NoEnabledCandidate { count })
            ==> count == enabled.len()
            && forall|j: int| from <= j < enabled.len() ==> enabled[j] == Enablement::Disabled,
        first_enabled_from(enabled, from) is Ok
            || first_enabled_from(enabled, from) matches Err(SelectionError::EnablementCheckFailed { .. })
            || first_enabled_from(enabled, from) matches Err(SelectionError::NoEnabledCandidate { .. }),
    decreases enabled.len() - from,
{
    if from < enabled.len() {
        lemma_first_enabled_from_shape(enabled, from + 1);
    }
}

proof fn lemma_selected_is_enabled(names: Seq<Seq<char>>, filter: Option<Seq<char>>, enabled: Seq<Enablement>)
    requires
        names.len() == enabled.len() <= usize::MAX,
    ensures
        selection(names, filter, enabled) matches Ok(i) ==> i < enabled.len() && enabled[i as int] == Enablement::Enabled,
{
    match filter {
        Some(name) => lemma_first_named_in_range(names, name, 0),
        None => lemma_first_enabled_from_shape(enabled, 0),
    }
}

/// Automatic selection keeps the resolver's order: it picks candidate `i`
/// exactly when `i` is enabled and every earlier candidate is disabled, and
/// it reports that no candidate is enabled, with the full count, exactly when
/// every candidate is disabled.
pub proof fn lemma_automatic_selection_is_first_enabled(
    names: Seq<Seq<char>>,
    enabled: Seq<Enablement>,
    i: int,
)
    requires
        names.len() == enabled.len() <= usize::MAX,
        0 <= i < enabled.len(),
    ensures
        selection(names, None, enabled) == Ok::<usize, SelectionError>(i as usize) <==> (
            enabled[i] == Enablement::Enabled
            && forall|j: int| 0 <= j < i ==> enabled[j] == Enablement::Disabled),
        selection(names, None, enabled) == Err::<usize, SelectionError>(
            SelectionError::NoEnabledCandidate { count: enabled.len() as usize },
        ) <==> forall|j: int| 0 <= j < enabled.len() ==> enabled[j] == Enablement::Disabled,
{
    lemma_first_enabled_from_shape(enabled, 0);
    let r = first_enabled_from(enabled, 0);
    if enabled[i] == Enablement::Enabled && forall|j: int| 0 <= j < i ==> enabled[j] == Enablement::Disabled {
        match r {
            Ok(k) => {
                if (k as int) < i {
                    assert(enabled[k as int] == Enablement::Disabled);
                } else if (k as int) > i {
                    assert(enabled[i] == Enablement::Disabled);
                }
            },
            Err(SelectionError::EnablementCheckFailed { index }) => {
                if (index as int) < i {
                    assert(enabled[index as int] == Enablement::Disabled);
                } else {
                    assert(enabled[i] == Enablement::Disabled || index as int == i);
                }
            },
            Err(_) => {
                assert(enabled[i] == Enablement::Disabled);
            },
        }
    }
    if forall|j: int| 0 <= j < enabled.len() ==> enabled[j] == Enablement::Disabled {
        match r {
            Ok(k) => {
                assert(enabled[k as int] == Enablement::Disabled);
            },
            Err(SelectionError::EnablementCheckFailed { index }) => {
                assert(enabled[index as int] == Enablement::Disabled);
            },
            Err(_) => {},
        }
    }
}

/// The candidates for one locator: those found by its content type come
/// first, then those found by the locator itself. The two lists are joined
/// as they are; a module found both ways appears twice, and since selection
/// stops at the first enabled candidate, its first place is what counts.
pub fn prioritized_candidates<T>(by_content_type: Vec<T>, by_locator: Vec<T>) -> (r: Vec<T>)
    ensures
        r@ == by_content_type@ + by_locator@,
{
    let mut r = by_content_type;
    let mut rest = by_locator;
    r.append(&mut rest);
    r
}

/// The exit code reported for each way selection can fail.
pub open spec fn selection_exit_code(e: SelectionError) -> i32 {
    match e {
        SelectionError::NoSuchNamedModule => EX_SOFTWARE,
        SelectionError::NamedModuleDisabled { .. } => EX_UNAVAILABLE,
        SelectionError::NoEnabledCandidate { .. } => EX_UNAVAILABLE,
        SelectionError::EnablementCheckFailed { .. } => EX_IOERR,
    }
}

impl SelectionError {
    /// The process exit code that reports this failure.
    pub fn exit_code(&self) -> (r: i32)
        ensures
            r == selection_exit_code(*self),
    {
        match self {
            SelectionError::NoSuchNamedModule => EX_SOFTWARE,
            SelectionError::NamedModuleDisabled { .. } => EX_UNAVAILABLE,
            SelectionError::NoEnabledCandidate { .. } => EX_UNAVAILABLE,
            SelectionError::EnablementCheckFailed { .. } => EX_IOERR,
        }
    }
}

} // verus!
