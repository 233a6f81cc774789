use de_idle::game_state::{buildings::Furnace, resources::Wood, GameState};
use de_idle::ui::{
    actor::{ActorState, Msg},
    layout::{axis_index, axis_label, screen_layout, AXIS_LABEL_COUNT},
    messages::{
        factories_intro, game_completed, goal_messages, lumberjacks_intro, miners_intro,
        peak_goal_intro, resources_to_reveal, vertical_line_preamble, welcome_message, wood_intro,
        GoalProgress, MAX_GOALS,
    },
    plot::{push_bounded, MAX_PLOT_HISTORY},
};
use std::collections::VecDeque;

#[test]
fn landscape_layout_puts_plot_and_tabs_side_by_side() {
    let l = screen_layout(1920, 1080);
    assert!(l.is_landscape);
    assert_eq!(l.plot_width, 800);
    assert_eq!(l.tabs_width, 850);
    assert_eq!(l.tabs_height, 850);
    assert_eq!(l.body_max_width, Some(1720));
    let l = screen_layout(1000, 700);
    assert_eq!(l.plot_width, 400);
    let l = screen_layout(500, 100);
    assert_eq!(l.plot_width, 300);
}

#[test]
fn portrait_layout_stacks_plot_and_tabs() {
    let l = screen_layout(400, 900);
    assert!(!l.is_landscape);
    assert_eq!(l.plot_width, 400);
    assert_eq!(l.tabs_width, 400);
    assert_eq!(l.tabs_height, 400);
    assert_eq!(l.body_max_width, None);
    let l = screen_layout(1000, 1000);
    assert_eq!(l.plot_width, 800);
    assert_eq!(l.tabs_height, 100);
    let l = screen_layout(100, 200);
    assert_eq!(l.plot_width, 300);
}

#[test]
fn axis_names_and_indices() {
    assert_eq!(axis_label(0), Some("Time"));
    assert_eq!(axis_label(10), Some("Bank"));
    assert_eq!(axis_label(AXIS_LABEL_COUNT), None);
    assert_eq!(axis_index(&"Gold".to_string()), 2);
    assert_eq!(axis_index(&"Lumberjack".to_string()), 5);
    assert_eq!(axis_index(&"Dragons".to_string()), 0);
}

#[test]
fn plot_history_keeps_the_newest_points() {
    let mut pts: VecDeque<u32> = VecDeque::new();
    for i in 0..(MAX_PLOT_HISTORY as u32 + 5) {
        push_bounded(&mut pts, i, MAX_PLOT_HISTORY);
    }
    assert_eq!(pts.len(), MAX_PLOT_HISTORY);
    assert_eq!(pts.front(), Some(&5));
    assert_eq!(pts.back(), Some(&(MAX_PLOT_HISTORY as u32 + 4)));
}

#[test]
fn messages_come_in_goal_order() {
    let rows = goal_messages();
    assert_eq!(rows.len(), 7);
    assert_eq!(rows[6], vertical_line_preamble());
    assert_eq!(rows[5], wood_intro());
    assert_eq!(rows[4], miners_intro());
    assert_eq!(rows[3], lumberjacks_intro());
    assert_eq!(rows[2], peak_goal_intro());
    assert_eq!(rows[1], factories_intro());
    assert_eq!(rows[0], game_completed());
    assert!(welcome_message().starts_with("Welcome to DE-Idle!"));
    assert_eq!(game_completed(), "Great work! You have completed the game. Thanks for playing!");
}

#[test]
fn goals_reveal_resources_and_stop_at_the_last() {
    assert_eq!(resources_to_reveal(0), Vec::<usize>::new());
    assert_eq!(resources_to_reveal(1), vec![0]);
    assert_eq!(resources_to_reveal(2), vec![1, 3]);
    assert_eq!(resources_to_reveal(3), vec![4]);
    assert_eq!(resources_to_reveal(4), Vec::<usize>::new());
    assert_eq!(resources_to_reveal(5), vec![2, 7, 8]);

    let mut progress = GoalProgress::new();
    let rows = goal_messages().len();
    for k in 0..MAX_GOALS {
        let step = progress.complete_goal(rows);
        assert_eq!(step.checkbox, k);
        assert_eq!(step.message_row, rows - 1 - k);
        assert_eq!(step.reveal, resources_to_reveal(k));
        assert_eq!(step.next_goal, Some(k + 1));
    }
    assert_eq!(progress.completed_goals(), MAX_GOALS);
    let last = progress.complete_goal(rows);
    assert_eq!(last.message_row, 0);
    assert_eq!(last.next_goal, None);
    assert_eq!(progress.completed_goals(), MAX_GOALS);
}

#[test]
fn actor_updates_only_while_running() {
    let mut actor = ActorState::create();
    actor.state.furnaces = Furnace::new(1);
    assert!(!actor.process(Msg::Chop));
    assert_eq!(actor.state.wood, Wood::new(1));
    assert!(!actor.process(Msg::TogglePause));
    assert!(actor.paused);
    let before = actor.state.clone();
    assert!(!actor.process(Msg::Update));
    assert_eq!(actor.state, before);
    assert!(!actor.process(Msg::TogglePause));
    assert!(actor.process(Msg::Update));
    assert_eq!(actor.state.wood.raw_milli_amount(), 990);
    assert!(!actor.process(Msg::SetXAxis(0)));
    assert!(!actor.process(Msg::SetYAxis(2)));
    assert_eq!((actor.x_axis_quantity, actor.y_axis_quantity), (0, 2));
    let fresh = GameState::default();
    assert_eq!(ActorState::create().state, fresh);
}
