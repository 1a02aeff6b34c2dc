use turtle_swarm::CubicBoundary;
use turtle_swarm::Objective;
use turtle_swarm::Optimizer;
use turtle_swarm::Paraboloid;
use turtle_swarm::Score;
use turtle_swarm::Turtle;

#[test]
fn sufficient_testing() {
    let boundaries = CubicBoundary::new(1, -1000, 1000);
    let mut optimizer = Optimizer::new(33, boundaries, Paraboloid, 10);

    optimizer.evaluate();

    for turtle in optimizer.turtles.iter() {
        assert_ne!(turtle.best_score, Score::Infinite);
    }

    optimizer.update_velocities();

    let movement = optimizer
        .turtles
        .iter()
        .map(|turtle| turtle.velocity.iter().map(|v| *v as i128).sum::<i128>())
        .any(|v_sum| v_sum != 0);
    assert!(movement);

    optimizer.optimize();
}

#[test]
fn boundary_normalization() {
    let swapped = CubicBoundary::new(2, 10, -10);
    assert_eq!(swapped.lower, -10);
    assert_eq!(swapped.upper, 10);
    assert_eq!(swapped.shape, 2);

    let ordered = CubicBoundary::new(1, -3, 8);
    assert_eq!(ordered.lower, -3);
    assert_eq!(ordered.upper, 8);
    assert_eq!(ordered.shape, 1);
}

#[test]
fn initial_feasibility() {
    let boundaries = CubicBoundary::new(4, -7, 9);
    for _ in 0..50 {
        let t = Turtle::new(&boundaries);
        assert_eq!(t.position.len(), 4);
        for &x in t.position.iter() {
            assert!(-7 <= x && x <= 9);
        }
        assert_eq!(t.velocity, vec![1, 1, 1, 1]);
        assert_eq!(t.best_position, vec![0, 0, 0, 0]);
        assert_eq!(t.best_score, Score::Infinite);
    }
}

#[test]
fn sampling_fills_every_dimension() {
    let boundaries = CubicBoundary::new(3, 5, 5);
    let t = Turtle::new(&boundaries);
    assert_eq!(t.position, vec![5, 5, 5]);
}

#[test]
fn no_evaluation_yet_state() {
    let boundaries = CubicBoundary::new(2, -100, 100);
    let opt = Optimizer::new(5, boundaries, Paraboloid, 0);
    assert_eq!(opt.best_score, Score::Infinite);
    assert_eq!(opt.iterations, 0);
    assert_eq!(opt.best_position, vec![0, 0]);
    assert_eq!(opt.turtles.len(), 5);
    for t in opt.turtles.iter() {
        assert_eq!(t.best_score, Score::Infinite);
    }
    assert_eq!(opt.goal, 0);
}

#[test]
fn paraboloid_exact_values() {
    let p = Paraboloid;
    assert_eq!(p.evaluate(&vec![]), 0);
    assert_eq!(p.evaluate(&vec![0]), 0);
    assert_eq!(p.evaluate(&vec![100]), 10);
    assert_eq!(p.evaluate(&vec![-50, 30]), 2);
    assert_eq!(p.evaluate(&vec![1000]), 1000);
}

#[test]
fn paraboloid_saturates_at_max() {
    let p = Paraboloid;
    assert_eq!(p.evaluate(&vec![i64::MAX]), i64::MAX);
    assert_eq!(p.evaluate(&vec![i64::MIN, i64::MAX]), i64::MAX);
}

#[test]
fn degenerate_boundary_exact_cycle() {
    let boundaries = CubicBoundary::new(2, 42, 42);
    let mut opt = Optimizer::new(3, boundaries, Paraboloid, 0);
    for t in opt.turtles.iter() {
        assert_eq!(t.position, vec![42, 42]);
        assert_eq!(t.velocity, vec![1, 1]);
        assert_eq!(t.best_position, vec![0, 0]);
    }

    opt.evaluate();
    // (42 * 42) / 1000 truncates to 1 per dimension, over two dimensions
    assert_eq!(opt.best_score, Score::Finite(2));
    assert_eq!(opt.best_position, vec![42, 42]);
    for t in opt.turtles.iter() {
        assert_eq!(t.best_score, Score::Finite(2));
        assert_eq!(t.best_position, vec![42, 42]);
    }

    opt.update_velocities();
    // every turtle sits on both bests, so both pulls vanish
    for t in opt.turtles.iter() {
        assert_eq!(t.velocity, vec![1, 1]);
    }

    opt.update_positions();
    // 42 + 1 clamps back to the upper bound
    for t in opt.turtles.iter() {
        assert_eq!(t.position, vec![42, 42]);
    }
    assert_eq!(opt.iterations, 0);
}

#[test]
fn monotonic_improvement_and_clamping() {
    let boundaries = CubicBoundary::new(2, -500, 500);
    // an unreachable goal, so the phases can be stepped by hand
    let mut opt = Optimizer::new(7, boundaries, Paraboloid, -1);
    let mut prev_global: Option<i64> = None;
    let mut prev_personal: Vec<Option<i64>> = vec![None; 7];
    for _ in 0..5 {
        opt.evaluate();
        let g = match opt.best_score {
            Score::Finite(v) => v,
            Score::Infinite => panic!("evaluate must observe a score"),
        };
        if let Some(p) = prev_global {
            assert!(g <= p);
        }
        prev_global = Some(g);
        for (i, t) in opt.turtles.iter().enumerate() {
            let s = match t.best_score {
                Score::Finite(v) => v,
                Score::Infinite => panic!("evaluate must observe every turtle"),
            };
            if let Some(p) = prev_personal[i] {
                assert!(s <= p);
            }
            prev_personal[i] = Some(s);
            assert!(g <= s);
        }
        opt.update_velocities();
        opt.update_positions();
        for t in opt.turtles.iter() {
            for &x in t.position.iter() {
                assert!(-500 <= x && x <= 500);
            }
        }
    }
}

#[test]
fn scenario_goal_reached() {
    let boundaries = CubicBoundary::new(1, -1000, 1000);
    let mut opt = Optimizer::new(33, boundaries, Paraboloid, 10);
    opt.optimize();
    match opt.best_score {
        Score::Finite(s) => assert!(s <= 10),
        Score::Infinite => panic!("no score was ever observed"),
    }
    assert_eq!(opt.best_position.len(), 1);
    let x = opt.best_position[0];
    // |best| is at most sqrt(goal) plus tolerance, in fixed-point units
    assert!(x.abs() <= 110);
    assert!(opt.iterations >= 1);
    for t in opt.turtles.iter() {
        for &c in t.position.iter() {
            assert!(-1000 <= c && c <= 1000);
        }
    }

    // a second run finds the goal already met and changes nothing at all
    let iterations_before = opt.iterations;
    let best_score_before = opt.best_score;
    let best_position_before = opt.best_position.clone();
    opt.optimize();
    assert_eq!(opt.iterations, iterations_before);
    assert_eq!(opt.best_score, best_score_before);
    assert_eq!(opt.best_position, best_position_before);
}
