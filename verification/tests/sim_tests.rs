use sim::clamp;
use sim::data::Action;
use sim::data::BallState;
use sim::data::GameState;
use sim::data::ScoreState;
use sim::data::Toucher;
use sim::data::Quat;
use sim::data::Vec3;
use sim::data::WheelState;
use sim::drivetrain::coulomb;
use sim::drivetrain::drivetrain_step;
use sim::geom::load_geom;
use sim::geom::BotGeomData;
use sim::geom::ConfigError;
use sim::next_step;
use sim::rng::RngState;
use sim::score::track_score;
use sim::score::Crossing;
use sim::simulate::initial_state;
use sim::simulate::simulate;
use sim::take_view::take_view;
use sim::take_view::NoiseProfile;

fn test_geom() -> BotGeomData {
    BotGeomData {
        bot_radius: 100,
        bot_mass: 2000,
        bot_front_insink_depth: 50,
        bot_front_insink_inner_width: 80,
        bot_front_insink_outer_width: 100,
        bot_hitbox: vec![90, 0, -90, 0],
        wheel_fric_s: 800,
        wheel_fric_k: 600,
        wheel_max_speed: 20000,
        wheel_max_torque: 1000,
        small_wheel_fric_s: 500,
        small_wheel_fric_k: 400,
        n_wheels: 2,
        have_dribbler: true,
        dribbler_edge_radius: 20,
        dribbler_middle_radius: 15,
        dribbler_hitbox: vec![40],
        dribbler_centering_tendency: 0,
        dribbler_width: 80,
        dribbler_max_speed: 3000,
        dribbler_down_pos: Vec3 { x: 0, y: 0, z: 0 },
        dribbler_pivot_pos: Vec3 { x: 0, y: 0, z: 0 },
        dribbler_max_pivot: 100,
        have_kicker: true,
        kicker_max_impulse: 5000,
        kicker_min_impulse: 100,
        kicker_elasticity: 1000,
        kicker_uncertainty: 0,
        ball_mass: 1000,
        ball_radius: 30,
        ball_hitbox: 30,
        ball_elasticity: 0,
        ball_fric_s: 0,
        ball_fric_k: 0,
        field_half_length: 3000,
        field_half_width: 2000,
        goal_half_width: 500,
    }
}

fn zero_action() -> Action {
    Action { wheel_accels: vec![0, 0], dribber_accel: 0, kicker_accel: 0 }
}

fn run_tick(state: GameState, actions: [Action; 4], seed: u64) -> (GameState, RngState) {
    let g = test_geom();
    let mut rng = RngState::seed(seed);
    let [a1, a2, a3, a4] = actions;
    let next = simulate(&state, &a1, &a2, &a3, &a4, &g, &g, &g, &g, &mut rng)
        .expect("tick should not diverge");
    (next, rng)
}

#[test]
fn clamp_law_below_inside_above() {
    assert_eq!(clamp(-50, 0, 10), 0);
    assert_eq!(clamp(5, 0, 10), 5);
    assert_eq!(clamp(50, 0, 10), 10);
}

#[test]
fn coulomb_static_keeps_demand() {
    let (f, slipping) = coulomb(500, 1000, 800);
    assert_eq!(f, 500);
    assert!(!slipping);
}

#[test]
fn coulomb_kinetic_caps_force() {
    let (f, slipping) = coulomb(1500, 1000, 800);
    assert_eq!(f, 800);
    assert!(slipping);
    let (f2, s2) = coulomb(-1500, 1000, 800);
    assert_eq!(f2, -800);
    assert!(s2);
}

#[test]
fn wheel_torque_capped_acceleration() {
    let g = test_geom();
    let wheels = vec![WheelState {
        big_wheel_velocity: 0,
        big_wheel_orientation: 0,
        small_wheel_velocity: Vec3 { x: 0, y: 0, z: 0 },
    }];
    // Commanded acceleration far above the torque cap: the realized wheel
    // speed change corresponds to the capped torque (1000 * 16 / 1000).
    let ac = vec![10_000_000];
    let (nw, _fwd, _yaw) = drivetrain_step(&wheels, &ac, &g, Vec3::zero());
    assert_eq!(nw[0].big_wheel_velocity, 16);
}

#[test]
fn wheel_speed_is_capped() {
    let g = test_geom();
    let wheels = vec![WheelState {
        big_wheel_velocity: 19_999,
        big_wheel_orientation: 0,
        small_wheel_velocity: Vec3 { x: 0, y: 0, z: 0 },
    }];
    let ac = vec![1_000];
    let (nw, _fwd, _yaw) = drivetrain_step(&wheels, &ac, &g, Vec3::zero());
    assert_eq!(nw[0].big_wheel_velocity, 20_000);
}

#[test]
fn scores_increment_once_and_stay_consistent() {
    let zero = ScoreState {
        friendly_score: 0,
        friendly_out_of_bounds_score: 0,
        friendly_goal_score: 0,
        enemy_score: 0,
        enemy_out_of_bounds_score: 0,
        enemy_goal_score: 0,
    };
    let (s1, t1, reset1) = track_score(zero, Toucher::Friendly, Crossing::GoalPlusX);
    assert_eq!(s1.friendly_score, 1);
    assert_eq!(s1.friendly_goal_score, 1);
    assert_eq!(s1.friendly_out_of_bounds_score, 0);
    assert_eq!(s1.enemy_score, 0);
    assert_eq!(t1, Toucher::Nobody);
    assert!(reset1);
    assert_eq!(
        s1.friendly_score,
        s1.friendly_goal_score + s1.friendly_out_of_bounds_score
    );
    let (s2, _t2, _r2) = track_score(s1, Toucher::Friendly, Crossing::Out);
    assert_eq!(s2.enemy_score, 1);
    assert_eq!(s2.enemy_out_of_bounds_score, 1);
    assert_eq!(s2.enemy_score, s2.enemy_goal_score + s2.enemy_out_of_bounds_score);
    assert!(s2.friendly_score >= s1.friendly_score);
}

#[test]
fn out_of_bounds_without_toucher_awards_nobody() {
    let g = test_geom();
    let mut state = initial_state(&g);
    // Ball already past the side line, nobody has touched it.
    state.ball = BallState {
        ball_position: Vec3 { x: 1000, y: 2500, z: 30 },
        ball_spin: Vec3::zero(),
        ball_velocity: Vec3 { x: 0, y: 0, z: 0 },
    };
    let before = state.score;
    let (next, _rng) = run_tick(
        state,
        [zero_action(), zero_action(), zero_action(), zero_action()],
        7,
    );
    assert_eq!(next.score, before);
    // The ball was reset to the restart point at field center.
    assert_eq!(next.ball.ball_position.x, 0);
    assert_eq!(next.ball.ball_position.y, 0);
    assert_eq!(next.ball.ball_velocity, Vec3 { x: 0, y: 0, z: 0 });
}

#[test]
fn goal_crossing_scores_for_the_attacker() {
    let g = test_geom();
    let mut state = initial_state(&g);
    // Ball beyond the +x goal plane inside the goal mouth.
    state.ball = BallState {
        ball_position: Vec3 { x: 3200, y: 100, z: 30 },
        ball_spin: Vec3::zero(),
        ball_velocity: Vec3 { x: 0, y: 0, z: 0 },
    };
    let (next, _rng) = run_tick(
        state,
        [zero_action(), zero_action(), zero_action(), zero_action()],
        7,
    );
    assert_eq!(next.score.friendly_score, 1);
    assert_eq!(next.score.friendly_goal_score, 1);
    assert_eq!(next.score.enemy_score, 0);
    assert_eq!(next.ball.ball_position.x, 0);
}

#[test]
fn kick_above_max_is_clamped() {
    let g = test_geom();
    let mut state = initial_state(&g);
    // Friendly robot right behind the ball at field center, facing it.
    state.friendly_bot_1.position = Vec3::new(-131, 0, 0);
    state.ball = BallState {
        ball_position: Vec3 { x: 0, y: 0, z: 30 },
        ball_spin: Vec3::zero(),
        ball_velocity: Vec3 { x: 0, y: 0, z: 0 },
    };
    let kick = Action { wheel_accels: vec![0, 0], dribber_accel: 0, kicker_accel: 999_999 };
    let (next, _rng) = run_tick(
        state,
        [kick, zero_action(), zero_action(), zero_action()],
        3,
    );
    // Impulse clamped to kicker_max_impulse, scaled by elasticity (1.0),
    // divided by the ball mass: 5000 * 1000 / 1000 = 5000 milli m/s forward.
    assert_eq!(next.ball.ball_velocity.x, 5000);
    assert_eq!(next.ball.ball_velocity.y, 0);
}

#[test]
fn kick_below_min_is_raised_to_min() {
    let g = test_geom();
    let mut state = initial_state(&g);
    state.friendly_bot_1.position = Vec3::new(-131, 0, 0);
    state.ball = BallState {
        ball_position: Vec3 { x: 0, y: 0, z: 30 },
        ball_spin: Vec3::zero(),
        ball_velocity: Vec3 { x: 0, y: 0, z: 0 },
    };
    let kick = Action { wheel_accels: vec![0, 0], dribber_accel: 0, kicker_accel: 1 };
    let (next, _rng) = run_tick(
        state,
        [kick, zero_action(), zero_action(), zero_action()],
        3,
    );
    assert_eq!(next.ball.ball_velocity.x, 100);
}

#[test]
fn kick_out_of_range_is_a_no_op() {
    let g = test_geom();
    let mut state = initial_state(&g);
    // The robot stands far from the ball: the command must do nothing.
    state.friendly_bot_1.position = Vec3 { x: -1000, y: 0, z: 0 };
    state.ball = BallState {
        ball_position: Vec3 { x: 0, y: 0, z: 30 },
        ball_spin: Vec3::zero(),
        ball_velocity: Vec3 { x: 0, y: 0, z: 0 },
    };
    let kick = Action { wheel_accels: vec![0, 0], dribber_accel: 0, kicker_accel: 999_999 };
    let (next, _rng) = run_tick(
        state,
        [kick, zero_action(), zero_action(), zero_action()],
        3,
    );
    assert_eq!(next.ball.ball_velocity.x, 0);
}

#[test]
fn orientations_stay_unit_norm() {
    let g = test_geom();
    let mut state = initial_state(&g);
    // A chassis spinning at 25 rad/s keeps integrating and renormalizing its
    // orientation every tick.
    state.friendly_bot_1.spin.z = 25_000;
    state.enemy_bot_1.spin.z = -25_000;
    for _ in 0..50 {
        let (next, _rng) = run_tick(
            state,
            [zero_action(), zero_action(), zero_action(), zero_action()],
            11,
        );
        for bot in [
            &next.friendly_bot_1,
            &next.friendly_bot_2,
            &next.enemy_bot_1,
            &next.enemy_bot_2,
        ] {
            let q = bot.orientation;
            let n2 = q.x * q.x + q.y * q.y + q.z * q.z + q.w * q.w;
            assert!((n2 - 1_000_000).abs() <= 10_000, "norm_sq drifted: {}", n2);
        }
        state = next;
    }
}

#[test]
fn step_is_deterministic_for_equal_seed() {
    let g = test_geom();
    let state = initial_state(&g);
    let kick = Action { wheel_accels: vec![700, 300], dribber_accel: 100, kicker_accel: 400 };
    let mut rng1 = RngState::seed(99);
    let mut rng2 = RngState::seed(99);
    let profile = NoiseProfile { lidar_mag: 50, ball_pos_mag: 20, ball_vel_mag: 20, goal_mag: 10 };
    let r1 = next_step(
        state.clone(),
        kick.clone(),
        zero_action(),
        zero_action(),
        zero_action(),
        g.clone(),
        g.clone(),
        g.clone(),
        g.clone(),
        &profile,
        &mut rng1,
    )
    .expect("tick should not diverge");
    let r2 = next_step(
        state,
        kick,
        zero_action(),
        zero_action(),
        zero_action(),
        g.clone(),
        g.clone(),
        g.clone(),
        g.clone(),
        &profile,
        &mut rng2,
    )
    .expect("tick should not diverge");
    assert_eq!(r1.0, r2.0);
    assert_eq!(r1.1, r2.1);
    assert_eq!(r1.2, r2.2);
    assert_eq!(r1.3, r2.3);
    assert_eq!(r1.4, r2.4);
    assert_eq!(rng1, rng2);
}

#[test]
fn zero_noise_view_is_exact_projection() {
    let g = test_geom();
    let state = initial_state(&g);
    let profile = NoiseProfile::zero();
    let mut rng = RngState::seed(5);
    let (v1, _v2, _v3, _v4) = take_view(&state, &g, &profile, &mut rng);
    // Friendly bot 1 faces +x with the identity rotation, so the projection
    // is the plain offset of the ball from the robot.
    let expect_x = state.ball.ball_position.x - state.friendly_bot_1.position.x;
    let expect_y = state.ball.ball_position.y - state.friendly_bot_1.position.y;
    let expect_z = state.ball.ball_position.z - state.friendly_bot_1.position.z;
    assert_eq!(v1.relative_ball_pos, Vec3 { x: expect_x, y: expect_y, z: expect_z });
    // Running again with the same seed gives the same observation.
    let mut rng2 = RngState::seed(5);
    let (w1, _w2, _w3, _w4) = take_view(&state, &g, &profile, &mut rng2);
    assert_eq!(v1, w1);
}

#[test]
fn lidar_reads_walls_and_max_range() {
    let g = test_geom();
    let state = initial_state(&g);
    let profile = NoiseProfile::zero();
    let mut rng = RngState::seed(1);
    let (v1, _v2, _v3, _v4) = take_view(&state, &g, &profile, &mut rng);
    assert_eq!(v1.lidar_readings.len(), 8);
    // Friendly bot 1 stands at (-1500, -1000) facing +x; straight ahead the
    // nearest wall is x = +3000, i.e. 4500 away, with no robot in the way on
    // the -y ray, which meets the wall y = -2000 at range 1000.
    assert_eq!(v1.lidar_readings[5], 1000);
    assert_eq!(v1.line_sensor_readings.len(), 2);
    assert_eq!(v1.line_sensor_readings[0], 0);
}

fn full_json(missing: Option<&str>, wrong: Option<&str>) -> String {
    let keys: [(&str, &str); 37] = [
        ("bot_radius", "100"),
        ("bot_mass", "2000"),
        ("bot_front_insink_depth", "50"),
        ("bot_front_insink_inner_width", "80"),
        ("bot_front_insink_outer_width", "100"),
        ("bot_hitbox", "[90, 0, -90, 0]"),
        ("wheel_fric_s", "800"),
        ("wheel_fric_k", "600"),
        ("wheel_max_speed", "20000"),
        ("wheel_max_torque", "1000"),
        ("small_wheel_fric_s", "500"),
        ("small_wheel_fric_k", "400"),
        ("n_wheels", "2"),
        ("have_dribbler", "true"),
        ("dribbler_edge_radius", "20"),
        ("dribbler_middle_radius", "15"),
        ("dribbler_hitbox", "[40]"),
        ("dribbler_centering_tendency", "0"),
        ("dribbler_width", "80"),
        ("dribbler_max_speed", "3000"),
        ("dribbler_down_pos", "[0, 0, 0]"),
        ("dribbler_pivot_pos", "[0, 0, 0]"),
        ("dribbler_max_pivot", "100"),
        ("have_kicker", "true"),
        ("kicker_max_impulse", "5000"),
        ("kicker_min_impulse", "100"),
        ("kicker_elasticity", "1000"),
        ("kicker_uncertainty", "0"),
        ("ball_mass", "1000"),
        ("ball_radius", "30"),
        ("ball_hitbox", "30"),
        ("ball_elasticity", "0"),
        ("ball_fric_s", "0"),
        ("ball_fric_k", "0"),
        ("field_half_length", "3000"),
        ("field_half_width", "2000"),
        ("goal_half_width", "500"),
    ];
    let mut out = String::from("{");
    let mut first = true;
    for (k, v) in keys.iter() {
        if missing == Some(*k) {
            continue;
        }
        if !first {
            out.push(',');
        }
        first = false;
        out.push('"');
        out.push_str(k);
        out.push_str("\":");
        if wrong == Some(*k) {
            out.push_str("\"oops\"");
        } else {
            out.push_str(v);
        }
    }
    out.push('}');
    out
}

#[test]
fn load_geom_accepts_a_full_document() {
    let doc = full_json(None, None);
    let g = load_geom(&doc).expect("document should load");
    assert_eq!(g.bot_radius, 100);
    assert_eq!(g.n_wheels, 2);
    assert!(g.have_dribbler);
    assert_eq!(g.bot_hitbox, vec![90, 0, -90, 0]);
    assert_eq!(g.dribbler_down_pos, Vec3 { x: 0, y: 0, z: 0 });
    assert_eq!(g.goal_half_width, 500);
}

#[test]
fn load_geom_rejects_bad_syntax() {
    assert_eq!(load_geom("not json at all"), Err(ConfigError::Parse));
}

#[test]
fn load_geom_rejects_missing_key() {
    let doc = full_json(Some("kicker_max_impulse"), None);
    assert_eq!(load_geom(&doc), Err(ConfigError::MissingKey));
}

#[test]
fn load_geom_rejects_wrong_type() {
    let doc = full_json(None, Some("bot_mass"));
    assert_eq!(load_geom(&doc), Err(ConfigError::WrongType));
}

#[test]
fn load_geom_rejects_out_of_range() {
    let doc = full_json(None, None).replace("\"bot_mass\":2000", "\"bot_mass\":0");
    assert_eq!(load_geom(&doc), Err(ConfigError::OutOfRange));
}

#[test]
fn rng_is_reproducible_and_bounded() {
    let mut a = RngState::seed(42);
    let mut b = RngState::seed(42);
    for _ in 0..10 {
        let x = sim::rng::rng_next(&mut a);
        let y = sim::rng::rng_next(&mut b);
        assert_eq!(x, y);
        assert!(x < 0x1_0000_0000);
    }
    let mut c = RngState::seed(42);
    for _ in 0..10 {
        let j = sim::rng::jitter(&mut c, 25);
        assert!(-25 <= j && j <= 25);
    }
}

#[test]
fn initial_state_is_a_valid_kickoff() {
    let g = test_geom();
    let s = initial_state(&g);
    assert_eq!(s.ball.ball_position, Vec3 { x: 0, y: 0, z: 30 });
    assert_eq!(s.score.friendly_score, 0);
    assert_eq!(s.score.enemy_score, 0);
    assert_eq!(s.last_toucher, Toucher::Nobody);
    assert_eq!(s.friendly_bot_1.orientation, Quat::identity());
    assert_eq!(s.friendly_bot_1.wheel_states.len(), 2);
    // Both sides start on their own halves.
    assert!(s.friendly_bot_1.position.x < 0);
    assert!(s.enemy_bot_1.position.x > 0);
}

#[test]
fn dribbler_transfers_backspin_when_engaged() {
    let mut g = test_geom();
    g.dribbler_middle_radius = 500;
    let mut state = initial_state(&g);
    // Ball resting against the front of friendly bot 1's dribbler.
    state.friendly_bot_1.position = Vec3::new(-131, 0, 0);
    state.ball = BallState {
        ball_position: Vec3 { x: 0, y: 0, z: 30 },
        ball_spin: Vec3::zero(),
        ball_velocity: Vec3::zero(),
    };
    let spin_up = Action { wheel_accels: vec![0, 0], dribber_accel: 1_000_000, kicker_accel: 0 };
    let mut rng = RngState::seed(2);
    let next = simulate(
        &state,
        &spin_up,
        &Action { wheel_accels: vec![0, 0], dribber_accel: 0, kicker_accel: 0 },
        &Action { wheel_accels: vec![0, 0], dribber_accel: 0, kicker_accel: 0 },
        &Action { wheel_accels: vec![0, 0], dribber_accel: 0, kicker_accel: 0 },
        &g,
        &g,
        &g,
        &g,
        &mut rng,
    )
    .expect("tick should not diverge");
    // One tick of maximal roller acceleration: speed 3000 * 16 / 1000 = 48,
    // transferring backspin -(48 * 500 / 1000) = -24 to the engaged ball.
    assert_eq!(next.friendly_bot_1.dribber_speed, 48);
    assert_eq!(next.ball.ball_spin.y, -24);
}

#[test]
fn dribbler_leaves_distant_ball_alone() {
    let mut g = test_geom();
    g.dribbler_middle_radius = 500;
    let state = initial_state(&g);
    let spin_up = Action { wheel_accels: vec![0, 0], dribber_accel: 1_000_000, kicker_accel: 0 };
    let (next, _rng) = run_tick(
        state,
        [spin_up, zero_action(), zero_action(), zero_action()],
        2,
    );
    // The roller still spins up, but the ball at field center is far away.
    assert_eq!(next.ball.ball_spin.y, 0);
}

#[test]
fn absurd_spin_reports_divergence() {
    let g = test_geom();
    let mut state = initial_state(&g);
    // A spin far beyond what the small-angle integrator can represent must
    // surface as a fatal divergence, not a silently clamped pose.
    state.friendly_bot_1.spin.z = 900_000_000;
    let a = zero_action();
    let mut rng = RngState::seed(1);
    let r = simulate(&state, &a, &a, &a, &a, &g, &g, &g, &g, &mut rng);
    assert!(r.is_err());
}
