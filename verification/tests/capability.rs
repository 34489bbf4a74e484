use app_bootstrap::capability::{Behavior, Suppression};

const BEHAVIORS: [Behavior; 10] = [
    Behavior::Find,
    Behavior::CaretBrowsing,
    Behavior::DevTools,
    Behavior::Downloads,
    Behavior::FocusMove,
    Behavior::Reload,
    Behavior::Source,
    Behavior::Open,
    Behavior::Print,
    Behavior::ContextMenu,
];

#[test]
fn empty_suppression_leaves_every_behavior() {
    let scope = Suppression::none();
    for behavior in BEHAVIORS {
        assert!(!scope.suppresses(behavior));
    }
}

#[test]
fn single_suppression_covers_its_behavior_alone() {
    for chosen in BEHAVIORS {
        let scope = Suppression::only(chosen);
        for behavior in BEHAVIORS {
            assert_eq!(scope.suppresses(behavior), behavior == chosen);
        }
    }
}

#[test]
fn context_menu_suppression_sets_one_flag() {
    assert_eq!(
        Suppression::only(Behavior::ContextMenu),
        Suppression {
            find: false,
            caret_browsing: false,
            dev_tools: false,
            downloads: false,
            focus_move: false,
            reload: false,
            source: false,
            open: false,
            print: false,
            context_menu: true,
        }
    );
}

#[test]
fn suppresses_reads_each_flag() {
    let scope = Suppression {
        find: true,
        caret_browsing: false,
        dev_tools: true,
        downloads: false,
        focus_move: true,
        reload: false,
        source: true,
        open: false,
        print: true,
        context_menu: false,
    };
    assert!(scope.suppresses(Behavior::Find));
    assert!(!scope.suppresses(Behavior::CaretBrowsing));
    assert!(scope.suppresses(Behavior::DevTools));
    assert!(!scope.suppresses(Behavior::Downloads));
    assert!(scope.suppresses(Behavior::FocusMove));
    assert!(!scope.suppresses(Behavior::Reload));
    assert!(scope.suppresses(Behavior::Source));
    assert!(!scope.suppresses(Behavior::Open));
    assert!(scope.suppresses(Behavior::Print));
    assert!(!scope.suppresses(Behavior::ContextMenu));
}
