use std::collections::HashSet;

use wasd::config::{Config, SourceProbe};
use wasd::reconcile::{tick, wanted_active, LinkAction};
use wasd::source::Source;
use wasd::time::{ActiveInterval, TimeOfDay, Timestamp};

fn ts(hour: u8, minute: u8) -> Timestamp {
    Timestamp { hour, minute }
}

fn interval(start: Timestamp, end: Timestamp) -> ActiveInterval {
    ActiveInterval { start, end }
}

fn strings(names: &[&str]) -> Vec<String> {
    names.iter().map(|n| n.to_string()).collect()
}

fn apply(links: &mut HashSet<String>, action: &LinkAction) {
    match action {
        LinkAction::Create(plan) => {
            for l in plan {
                links.insert(l.clone());
            }
        }
        LinkAction::Remove(plan) => {
            for l in plan {
                links.remove(l);
            }
        }
    }
}

fn beach_config() -> Config {
    Config {
        update_interval: 60,
        active_directory: Some("/srv/active".to_string()),
        source: vec![Source {
            name: "beach".to_string(),
            directory: "/srv/beach".to_string(),
            interval: vec![interval(ts(22, 0), ts(6, 0))],
            active: false,
        }],
    }
}

#[test]
fn wanted_active_ors_the_intervals() {
    let intervals = vec![interval(ts(9, 0), ts(10, 0)), interval(ts(22, 0), ts(6, 0))];
    assert!(wanted_active(&intervals, &TimeOfDay::from_hms(9, 30, 0)));
    assert!(wanted_active(&intervals, &TimeOfDay::from_hms(23, 30, 0)));
    assert!(wanted_active(&intervals, &TimeOfDay::from_hms(5, 0, 0)));
    assert!(!wanted_active(&intervals, &TimeOfDay::from_hms(12, 0, 0)));
    assert!(!wanted_active(&Vec::new(), &TimeOfDay::from_hms(12, 0, 0)));
}

#[test]
fn tick_creates_then_removes_the_beach_links() {
    let mut config = beach_config();
    let files = vec![strings(&["a.jpg", "b.jpg"])];
    let mut links: HashSet<String> = HashSet::new();

    // 23:30 lies in the 22:00-06:00 window: the tick activates the source.
    let actions = tick(&mut config, &TimeOfDay::from_hms(23, 30, 0), &files);
    assert_eq!(actions.len(), 1);
    match &actions[0] {
        LinkAction::Create(plan) => {
            assert_eq!(*plan, strings(&["beach_a.jpg", "beach_b.jpg"]))
        }
        LinkAction::Remove(_) => panic!("expected a creation"),
    }
    apply(&mut links, &actions[0]);
    assert!(links.contains("beach_a.jpg"));
    assert!(links.contains("beach_b.jpg"));
    assert!(config.source[0].active);

    // 10:00 lies outside the window: the next tick removes both links.
    let actions = tick(&mut config, &TimeOfDay::from_hms(10, 0, 0), &files);
    assert_eq!(actions.len(), 1);
    match &actions[0] {
        LinkAction::Remove(plan) => {
            assert_eq!(*plan, strings(&["beach_a.jpg", "beach_b.jpg"]))
        }
        LinkAction::Create(_) => panic!("expected a removal"),
    }
    apply(&mut links, &actions[0]);
    assert!(links.is_empty());
    assert!(!config.source[0].active);
}

#[test]
fn tick_in_wanted_state_plans_nothing() {
    let mut config = beach_config();
    config.source[0].active = true;
    let files = vec![strings(&["a.jpg"])];
    let actions = tick(&mut config, &TimeOfDay::from_hms(23, 30, 0), &files);
    match &actions[0] {
        LinkAction::Create(plan) => assert!(plan.is_empty()),
        LinkAction::Remove(_) => panic!("expected a creation"),
    }
    assert!(config.source[0].active);
}

#[test]
fn config_mirror_probes_every_source_in_order() {
    let mut config = Config {
        update_interval: 30,
        active_directory: Some("/srv/active".to_string()),
        source: vec![
            Source {
                name: "a".to_string(),
                directory: "/srv/a".to_string(),
                interval: Vec::new(),
                active: false,
            },
            Source {
                name: "b".to_string(),
                directory: "/srv/b".to_string(),
                interval: Vec::new(),
                active: false,
            },
        ],
    };
    let probes = vec![
        SourceProbe { files: strings(&["x", "y"]), linked: vec![true, false] },
        SourceProbe { files: strings(&["z"]), linked: vec![false] },
    ];
    let plans = Config::mirror_fs_state(&mut config, &probes);
    assert_eq!(plans.len(), 2);
    // The first source is partially linked and self-heals.
    assert_eq!(plans[0], strings(&["a_x", "a_y"]));
    assert!(config.source[0].active);
    // The second has no links and stays inactive.
    assert!(plans[1].is_empty());
    assert!(!config.source[1].active);
    assert_eq!(config.update_interval, 30);
}

#[test]
fn reload_with_added_interval_activates_on_the_very_next_tick() {
    // A running config whose source has no window matching 15:00.
    let mut config = beach_config();
    let files = vec![strings(&["a.jpg", "b.jpg"])];
    let mut links: HashSet<String> = HashSet::new();
    let actions = tick(&mut config, &TimeOfDay::from_hms(15, 0, 0), &files);
    apply(&mut links, &actions[0]);
    assert!(links.is_empty());
    assert!(!config.source[0].active);

    // The configuration file changes: a reload replaces the config wholesale
    // with one that adds an afternoon window; the fresh source carries no
    // activation memory.
    let mut config = beach_config();
    config.source[0].interval.push(interval(ts(14, 0), ts(16, 0)));

    // The reconciler mirrors every source from disk before evaluating.
    let probes = vec![SourceProbe {
        files: files[0].clone(),
        linked: files[0].iter().map(|f| links.contains(&format!("beach_{}", f))).collect(),
    }];
    let plans = Config::mirror_fs_state(&mut config, &probes);
    assert!(plans[0].is_empty());
    assert!(!config.source[0].active);

    // The very next tick activates the source: no second tick is needed.
    let actions = tick(&mut config, &TimeOfDay::from_hms(15, 0, 0), &files);
    apply(&mut links, &actions[0]);
    assert!(config.source[0].active);
    assert!(links.contains("beach_a.jpg"));
    assert!(links.contains("beach_b.jpg"));
}
