//! Which capabilities are attached, decided from a table of registrations and
//! the build mode.

use crate::capability::{Behavior, Capability, Suppression, Verbosity};
use vstd::prelude::*;

verus! {

/// How the application was compiled. Fixed for the life of the process.
#[derive(Clone, Copy, Debug, PartialEq, Eq, Structural)]
pub enum BuildMode {
    Debug,
    Release,
}

impl BuildMode {
    /// The build mode that the compiler's debug flag stands for.
    pub fn from_debug_flag(debug: bool) -> (r: BuildMode)
        ensures
            r == (if debug { BuildMode::Debug } else { BuildMode::Release }),
    {
        if debug {
            BuildMode::Debug
        } else {
            BuildMode::Release
        }
    }
}

/// The moment at which a capability is attached.
#[derive(Clone, Copy, Debug, PartialEq, Eq, Structural)]
pub enum Phase {
    /// While the builder is assembled.
    Build,
    /// Inside the setup callback, which runs once, after the builder is
    /// finalized and before the run loop starts.
    Setup,
}

/// The build modes in which a registration applies.
#[derive(Clone, Copy, Debug, PartialEq, Eq, Structural)]
pub enum Condition {
    Always,
    DebugOnly,
    ReleaseOnly,
}

impl Condition {
    /// Whether the condition is met in `mode`.
    pub open spec fn holds(self, mode: BuildMode) -> bool {
        match self {
            Condition::Always => true,
            Condition::DebugOnly => mode == BuildMode::Debug,
            Condition::ReleaseOnly => mode == BuildMode::Release,
        }
    }

    /// Whether the condition is met in `mode`.
    pub fn admits(self, mode: BuildMode) -> (r: bool)
        ensures
            r == self.holds(mode),
    {
        match self {
            Condition::Always => true,
            Condition::DebugOnly => mode == BuildMode::Debug,
            Condition::ReleaseOnly => mode == BuildMode::Release,
        }
    }
}

/// One line of the table: a capability, the build modes in which it is
/// attached, and the moment of attaching it.
#[derive(Clone, Copy, Debug, PartialEq, Eq, Structural)]
pub struct Registration {
    pub capability: Capability,
    pub condition: Condition,
    pub phase: Phase,
}

impl Registration {
    /// Whether this line is attached in `mode` during `phase`.
    pub open spec fn selected(self, mode: BuildMode, phase: Phase) -> bool {
        self.condition.holds(mode) && self.phase == phase
    }
}

/// The capabilities of the lines of `table` that are attached in `mode`
/// during `phase`, in the order of the table.
pub open spec fn select(table: Seq<Registration>, mode: BuildMode, phase: Phase) -> Seq<Capability>
    decreases table.len(),
{
    if table.len() == 0 {
        Seq::empty()
    } else {
        let earlier = select(table.drop_last(), mode, phase);
        if table.last().selected(mode, phase) {
            earlier.push(table.last().capability)
        } else {
            earlier
        }
    }
}

/// The shell's suppression capability: scoped to the context menu alone.
pub open spec fn context_menu_guard() -> Capability {
    Capability::PreventDefault(Suppression::scoped_to(Behavior::ContextMenu))
}

/// The shell's table of registrations.
pub open spec fn table() -> Seq<Registration> {
    Seq::empty().push(
        Registration {
            capability: Capability::DeepLink,
            condition: Condition::Always,
            phase: Phase::Build,
        },
    ).push(
        Registration {
            capability: Capability::Opener,
            condition: Condition::Always,
            phase: Phase::Build,
        },
    ).push(
        Registration {
            capability: Capability::GlobalShortcut,
            condition: Condition::Always,
            phase: Phase::Build,
        },
    ).push(
        Registration {
            capability: context_menu_guard(),
            condition: Condition::ReleaseOnly,
            phase: Phase::Build,
        },
    ).push(
        Registration {
            capability: Capability::Logging(Verbosity::Info),
            condition: Condition::DebugOnly,
            phase: Phase::Setup,
        },
    )
}

/// What the shell attaches in `mode` during `phase`, in order.
pub open spec fn plan(mode: BuildMode, phase: Phase) -> Seq<Capability> {
    select(table(), mode, phase)
}

/// Adding a line to a table adds its capability to the selection exactly
/// when the line is selected.
pub proof fn select_push(table: Seq<Registration>, line: Registration, mode: BuildMode, phase: Phase)
    ensures
        select(table.push(line), mode, phase) == if line.selected(mode, phase) {
            select(table, mode, phase).push(line.capability)
        } else {
            select(table, mode, phase)
        },
{
    assert(table.push(line).drop_last() =~= table);
}

/// The plan, written out for each build mode and phase.
pub open spec fn written_out(mode: BuildMode, phase: Phase) -> Seq<Capability> {
    match (mode, phase) {
        (BuildMode::Debug, Phase::Build) => seq![
            Capability::DeepLink,
            Capability::Opener,
            Capability::GlobalShortcut,
        ],
        (BuildMode::Debug, Phase::Setup) => seq![Capability::Logging(Verbosity::Info)],
        (BuildMode::Release, Phase::Build) => seq![
            Capability::DeepLink,
            Capability::Opener,
            Capability::GlobalShortcut,
            context_menu_guard(),
        ],
        (BuildMode::Release, Phase::Setup) => Seq::empty(),
    }
}

/// Evaluating the table gives, for each build mode and phase, the plan as
/// written out.
pub proof fn plan_by_mode(mode: BuildMode, phase: Phase)
    ensures
        plan(mode, phase) == written_out(mode, phase),
{
    let t0 = Seq::<Registration>::empty();
    let t1 = t0.push(table()[0]);
    let t2 = t1.push(table()[1]);
    let t3 = t2.push(table()[2]);
    let t4 = t3.push(table()[3]);
    assert(table() == t4.push(table()[4]));
    assert(select(t0, mode, phase) =~= Seq::<Capability>::empty());
    select_push(t0, table()[0], mode, phase);
    select_push(t1, table()[1], mode, phase);
    select_push(t2, table()[2], mode, phase);
    select_push(t3, table()[3], mode, phase);
    select_push(t4, table()[4], mode, phase);
    assert(plan(mode, phase) =~= written_out(mode, phase));
}

/// In a debug build no suppression capability is attached, whatever its
/// scope and whatever the phase.
pub proof fn debug_attaches_no_suppression(phase: Phase, capability: Capability)
    ensures
        plan(BuildMode::Debug, phase).contains(capability) ==> !(capability is PreventDefault),
{
    plan_by_mode(BuildMode::Debug, phase);
}

/// In a release build the suppression capability is attached while the
/// builder is assembled, and whatever suppression capability is attached, in
/// either phase, is the one scoped to the context menu and to no other
/// default behaviour.
pub proof fn release_suppresses_context_menu_only(phase: Phase, capability: Capability)
    ensures
        plan(BuildMode::Release, Phase::Build).contains(context_menu_guard()),
        context_menu_guard() matches Capability::PreventDefault(scope) && scope@ == set![
            Behavior::ContextMenu,
        ],
        plan(BuildMode::Release, phase).contains(capability) && capability is PreventDefault
            ==> capability == context_menu_guard(),
{
    plan_by_mode(BuildMode::Release, Phase::Build);
    plan_by_mode(BuildMode::Release, phase);
    assert(plan(BuildMode::Release, Phase::Build)[3] == context_menu_guard());
    Suppression::scoped_to_covers_one(Behavior::ContextMenu);
}

/// In a debug build the logging capability is attached during setup, at the
/// threshold `Info`, and not before; in a release build no logging
/// capability is attached, whatever its threshold and whatever the phase.
pub proof fn logging_is_debug_only(phase: Phase, capability: Capability)
    ensures
        plan(BuildMode::Debug, Phase::Setup) == seq![Capability::Logging(Verbosity::Info)],
        plan(BuildMode::Debug, Phase::Build).contains(capability) ==> !(capability is Logging),
        plan(BuildMode::Release, phase).contains(capability) ==> !(capability is Logging),
{
    plan_by_mode(BuildMode::Debug, Phase::Setup);
    plan_by_mode(BuildMode::Debug, Phase::Build);
    plan_by_mode(BuildMode::Release, phase);
}

/// In every build mode the deep-link, opener and global-shortcut
/// capabilities are attached while the builder is assembled, first and in
/// that order.
pub proof fn always_on_capabilities(mode: BuildMode)
    ensures
        plan(mode, Phase::Build).len() >= 3,
        plan(mode, Phase::Build)[0] == Capability::DeepLink,
        plan(mode, Phase::Build)[1] == Capability::Opener,
        plan(mode, Phase::Build)[2] == Capability::GlobalShortcut,
        plan(mode, Phase::Build).contains(Capability::DeepLink),
        plan(mode, Phase::Build).contains(Capability::Opener),
        plan(mode, Phase::Build).contains(Capability::GlobalShortcut),
{
    plan_by_mode(mode, Phase::Build);
}

/// The shell's table of registrations.
pub fn registrations() -> (r: Vec<Registration>)
    ensures
        r@ == table(),
{
    let scope = Suppression::only(Behavior::ContextMenu);
    let mut r: Vec<Registration> = Vec::new();
    r.push(
        Registration {
            capability: Capability::DeepLink,
            condition: Condition::Always,
            phase: Phase::Build,
        },
    );
    r.push(
        Registration {
            capability: Capability::Opener,
            condition: Condition::Always,
            phase: Phase::Build,
        },
    );
    r.push(
        Registration {
            capability: Capability::GlobalShortcut,
            condition: Condition::Always,
            phase: Phase::Build,
        },
    );
    r.push(
        Registration {
            capability: Capability::PreventDefault(scope),
            condition: Condition::ReleaseOnly,
            phase: Phase::Build,
        },
    );
    r.push(
        Registration {
            capability: Capability::Logging(Verbosity::Info),
            condition: Condition::DebugOnly,
            phase: Phase::Setup,
        },
    );
    assert(r@ =~= table());
    r
}

/// Evaluates a table of registrations: the capabilities of the lines that are
/// attached in `mode` during `phase`, in the order of the table.
pub fn evaluate(table: &Vec<Registration>, mode: BuildMode, phase: Phase) -> (r: Vec<Capability>)
    ensures
        r@ == select(table@, mode, phase),
{
    let mut r: Vec<Capability> = Vec::new();
    let mut i: usize = 0;
    while i < table.len()
        invariant
            i <= table.len(),
            r@ == select(table@.take(i as int), mode, phase),
        decreases table.len() - i,
    {
        let line = table[i];
        proof {
            select_push(table@.take(i as int), line, mode, phase);
            assert(table@.take(i as int).push(line) =~= table@.take(i + 1));
        }
        if line.condition.admits(mode) && line.phase == phase {
            r.push(line.capability);
        }
        i += 1;
    }
    assert(table@.take(i as int) =~= table@);
    r
}

/// What the shell attaches in `mode` during `phase`, in order.
pub fn capabilities(mode: BuildMode, phase: Phase) -> (r: Vec<Capability>)
    ensures
        r@ == plan(mode, phase),
        r@ == written_out(mode, phase),
{
    proof {
        plan_by_mode(mode, phase);
    }
    let table = registrations();
    evaluate(&table, mode, phase)
}

} // verus!
