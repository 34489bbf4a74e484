//! The capabilities that the shell can attach, and their parameters.

use vstd::prelude::*;

verus! {

/// A default behaviour of the web view that the suppression capability can
/// switch off.
#[derive(Clone, Copy, Debug, PartialEq, Eq, Structural)]
pub enum Behavior {
    Find,
    CaretBrowsing,
    DevTools,
    Downloads,
    FocusMove,
    Reload,
    Source,
    Open,
    Print,
    ContextMenu,
}

/// The set of default behaviours that one suppression capability switches
/// off, one flag per behaviour.
#[derive(Clone, Copy, Debug, PartialEq, Eq, Structural)]
pub struct Suppression {
    pub find: bool,
    pub caret_browsing: bool,
    pub dev_tools: bool,
    pub downloads: bool,
    pub focus_move: bool,
    pub reload: bool,
    pub source: bool,
    pub open: bool,
    pub print: bool,
    pub context_menu: bool,
}

impl View for Suppression {
    type V = Set<Behavior>;

    /// The behaviours that are switched off.
    open spec fn view(&self) -> Set<Behavior> {
        Set::new(|b: Behavior| self.flag(b))
    }
}

impl Suppression {
    /// The flag that stands for `behavior`.
    pub open spec fn flag(self, behavior: Behavior) -> bool {
        match behavior {
            Behavior::Find => self.find,
            Behavior::CaretBrowsing => self.caret_browsing,
            Behavior::DevTools => self.dev_tools,
            Behavior::Downloads => self.downloads,
            Behavior::FocusMove => self.focus_move,
            Behavior::Reload => self.reload,
            Behavior::Source => self.source,
            Behavior::Open => self.open,
            Behavior::Print => self.print,
            Behavior::ContextMenu => self.context_menu,
        }
    }

    /// A suppression that leaves every default behaviour in place.
    pub fn none() -> (r: Suppression)
        ensures
            r@ == Set::<Behavior>::empty(),
    {
        let r = Suppression {
            find: false,
            caret_browsing: false,
            dev_tools: false,
            downloads: false,
            focus_move: false,
            reload: false,
            source: false,
            open: false,
            print: false,
            context_menu: false,
        };
        assert(r@ =~= Set::<Behavior>::empty());
        r
    }

    /// The suppression scoped to `behavior` alone: its flag is set and no
    /// other.
    pub open spec fn scoped_to(behavior: Behavior) -> Suppression {
        Suppression {
            find: behavior == Behavior::Find,
            caret_browsing: behavior == Behavior::CaretBrowsing,
            dev_tools: behavior == Behavior::DevTools,
            downloads: behavior == Behavior::Downloads,
            focus_move: behavior == Behavior::FocusMove,
            reload: behavior == Behavior::Reload,
            source: behavior == Behavior::Source,
            open: behavior == Behavior::Open,
            print: behavior == Behavior::Print,
            context_menu: behavior == Behavior::ContextMenu,
        }
    }

    /// A suppression scoped to one behaviour switches off that behaviour
    /// and no other.
    pub proof fn scoped_to_covers_one(behavior: Behavior)
        ensures
            Suppression::scoped_to(behavior)@ == set![behavior],
    {
        let scope = Suppression::scoped_to(behavior);
        assert forall|b: Behavior| scope@.contains(b) == (b == behavior) by {
            assert(scope@.contains(b) == scope.flag(b));
        }
        assert(scope@ =~= set![behavior]);
    }

    /// A suppression scoped to `behavior` alone.
    pub fn only(behavior: Behavior) -> (r: Suppression)
        ensures
            r == Suppression::scoped_to(behavior),
            r@ == set![behavior],
    {
        proof {
            Suppression::scoped_to_covers_one(behavior);
        }
        Suppression {
            find: behavior == Behavior::Find,
            caret_browsing: behavior == Behavior::CaretBrowsing,
            dev_tools: behavior == Behavior::DevTools,
            downloads: behavior == Behavior::Downloads,
            focus_move: behavior == Behavior::FocusMove,
            reload: behavior == Behavior::Reload,
            source: behavior == Behavior::Source,
            open: behavior == Behavior::Open,
            print: behavior == Behavior::Print,
            context_menu: behavior == Behavior::ContextMenu,
        }
    }

    /// Whether `behavior` is switched off.
    pub fn suppresses(&self, behavior: Behavior) -> (r: bool)
        ensures
            r == self@.contains(behavior),
    {
        match behavior {
            Behavior::Find => self.find,
            Behavior::CaretBrowsing => self.caret_browsing,
            Behavior::DevTools => self.dev_tools,
            Behavior::Downloads => self.downloads,
            Behavior::FocusMove => self.focus_move,
            Behavior::Reload => self.reload,
            Behavior::Source => self.source,
            Behavior::Open => self.open,
            Behavior::Print => self.print,
            Behavior::ContextMenu => self.context_menu,
        }
    }
}

/// Threshold of the logging capability, from silent to most talkative.
#[derive(Clone, Copy, Debug, PartialEq, Eq, Structural)]
pub enum Verbosity {
    Off,
    Error,
    Warn,
    Info,
    Debug,
    Trace,
}

/// A unit of behaviour that the host framework supplies and the shell
/// attaches. Only its parameters are visible here.
#[derive(Clone, Copy, Debug, PartialEq, Eq, Structural)]
pub enum Capability {
    /// Handling of links that open the application.
    DeepLink,
    /// Opening of URLs and files with the system's programs.
    Opener,
    /// Capture of system-wide keyboard shortcuts.
    GlobalShortcut,
    /// Suppression of the default behaviours in the given scope.
    PreventDefault(Suppression),
    /// Logging at the given threshold.
    Logging(Verbosity),
}

} // verus!
