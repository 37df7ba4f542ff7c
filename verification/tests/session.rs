use raycaster::session::{FramePlan, Input, Motion, Session};
use raycaster::tilemap::{Probe, TileMap};

fn plan_of(plan: &FramePlan) -> (Vec<Motion>, bool, bool, bool) {
    (plan.motions.clone(), plan.draw, plan.minimap, plan.help)
}

#[test]
fn new_session_runs_with_the_overlays_off() {
    assert_eq!(Session::new(), Session { running: true, minimap: false, help: false });
}

#[test]
fn idle_input_asks_for_nothing() {
    let input = Input::idle();
    assert!(!input.forward && !input.strafe_left && !input.back && !input.strafe_right);
    assert!(!input.rotate_left && !input.rotate_right);
    assert!(!input.exit && !input.toggle_minimap && !input.toggle_help);
}

#[test]
fn idle_frame_only_draws() {
    let mut session = Session::new();
    let plan = session.step(&Input::idle());
    assert_eq!(plan_of(&plan), (vec![], true, false, false));
    assert_eq!(session, Session::new());
}

#[test]
fn each_action_asks_for_its_motion() {
    let cases = [
        (Input { forward: true, ..Input::idle() }, Motion::Forward),
        (Input { strafe_left: true, ..Input::idle() }, Motion::StrafeLeft),
        (Input { back: true, ..Input::idle() }, Motion::Back),
        (Input { strafe_right: true, ..Input::idle() }, Motion::StrafeRight),
        (Input { rotate_left: true, ..Input::idle() }, Motion::RotateLeft),
        (Input { rotate_right: true, ..Input::idle() }, Motion::RotateRight),
    ];
    for (input, motion) in cases {
        let mut session = Session::new();
        let plan = session.step(&input);
        assert_eq!(plan_of(&plan), (vec![motion], true, false, false));
    }
}

#[test]
fn motions_come_in_a_fixed_order() {
    let mut session = Session::new();
    let all = Input {
        forward: true,
        strafe_left: true,
        back: true,
        strafe_right: true,
        rotate_left: true,
        rotate_right: true,
        ..Input::idle()
    };
    let plan = session.step(&all);
    assert_eq!(
        plan.motions,
        vec![
            Motion::Forward,
            Motion::StrafeLeft,
            Motion::Back,
            Motion::StrafeRight,
            Motion::RotateLeft,
            Motion::RotateRight,
        ]
    );
    let some = Input { back: true, rotate_right: true, strafe_left: true, ..Input::idle() };
    let plan = session.step(&some);
    assert_eq!(plan.motions, vec![Motion::StrafeLeft, Motion::Back, Motion::RotateRight]);
}

#[test]
fn toggles_flip_the_overlays_from_the_same_frame_on() {
    let mut session = Session::new();
    let plan = session.step(&Input { toggle_minimap: true, ..Input::idle() });
    assert_eq!(plan_of(&plan), (vec![], true, true, false));
    let plan = session.step(&Input::idle());
    assert_eq!(plan_of(&plan), (vec![], true, true, false));
    let plan = session.step(&Input { toggle_help: true, ..Input::idle() });
    assert_eq!(plan_of(&plan), (vec![], true, true, true));
    let plan = session.step(&Input { toggle_minimap: true, toggle_help: true, ..Input::idle() });
    assert_eq!(plan_of(&plan), (vec![], true, false, false));
    assert_eq!(session, Session::new());
}

#[test]
fn exit_ends_the_session_after_the_motions_and_before_the_drawing() {
    let mut session = Session { running: true, minimap: true, help: false };
    let input =
        Input { forward: true, exit: true, toggle_minimap: true, toggle_help: true, ..Input::idle() };
    let plan = session.step(&input);
    assert_eq!(plan_of(&plan), (vec![Motion::Forward], false, false, false));
    // The toggles of the last frame are not applied.
    assert_eq!(session, Session { running: false, minimap: true, help: false });
}

#[test]
fn ended_session_does_nothing() {
    let mut session = Session { running: false, minimap: true, help: true };
    let input = Input {
        forward: true,
        rotate_left: true,
        toggle_minimap: true,
        toggle_help: true,
        ..Input::idle()
    };
    for _ in 0..3 {
        let plan = session.step(&input);
        assert_eq!(plan_of(&plan), (vec![], false, false, false));
        assert_eq!(session, Session { running: false, minimap: true, help: true });
    }
    let plan = session.step(&Input { exit: true, ..Input::idle() });
    assert_eq!(plan_of(&plan), (vec![], false, false, false));
}

#[test]
fn walls_do_not_block_motion() {
    // The player stands on a wall tile; the frame still asks for the step
    // forward, and the step moves the player whatever the map holds.
    let map = TileMap::new(3, 3, &vec!["###", "###", "###"]);
    let (mut x, mut y, angle, speed) = (1.0f32, 1.0f32, 0.0f32, 10.0f32);
    assert_eq!(map.probe(x.round() as i32, y.round() as i32), Probe::Hit('#'));
    let mut session = Session::new();
    let plan = session.step(&Input { forward: true, ..Input::idle() });
    assert_eq!(plan.motions, vec![Motion::Forward]);
    for motion in plan.motions {
        assert_eq!(motion, Motion::Forward);
        x += angle.cos() * speed * 0.1;
        y += angle.sin() * speed * 0.1;
    }
    assert_eq!((x, y), (2.0, 1.0));
    assert_eq!(map.probe(x.round() as i32, y.round() as i32), Probe::Hit('#'));
}

#[test]
fn turning_by_ten_a_frame_adds_up_without_wrapping() {
    // The angle is kept as it grows: n turns of rate ten over one second each
    // give n times ten.
    let mut session = Session::new();
    let mut angle = 0.0f32;
    for n in 1..=1000 {
        let plan = session.step(&Input { rotate_right: true, ..Input::idle() });
        assert_eq!(plan.motions, vec![Motion::RotateRight]);
        angle += 10.0 * 1.0;
        assert_eq!(angle, n as f32 * 10.0);
    }
}
