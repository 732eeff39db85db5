use flappy_pipes::geometry::Bounds;
use flappy_pipes::pipe::{Pipe, Placement, PIPE_WIDTH, SPAWN_X};
use flappy_pipes::pipes::{Pipes, SPEED};

fn check_spawned(p: &Pipe) {
    assert_eq!(p.x, 800);
    assert_eq!(p.w, 50);
    assert!(p.h >= 100 && p.h < 400, "height {} out of range", p.h);
}

#[test]
fn spawned_pipes_start_at_the_right_edge() {
    for _ in 0..1000 {
        check_spawned(&Pipe::new());
    }
}

#[test]
fn from_rolls_sets_height_and_orientation() {
    assert_eq!(
        Pipe::from_rolls(0, 0),
        Pipe { x: 800, h: 100, w: 50, inverted: false }
    );
    assert_eq!(
        Pipe::from_rolls(299, 9),
        Pipe { x: 800, h: 399, w: 50, inverted: true }
    );
    assert!(!Pipe::from_rolls(120, 5).inverted);
    assert!(Pipe::from_rolls(120, 6).inverted);
    assert_eq!(Pipe::from_rolls(120, 6).h, 220);
}

#[test]
fn four_of_ten_orientation_rolls_invert() {
    let inverting = (0u32..10).filter(|f| Pipe::from_rolls(0, *f).inverted).count();
    assert_eq!(inverting, 4);
}

#[test]
fn inverted_fraction_is_near_four_tenths() {
    let n = 10_000;
    let inverted = (0..n).filter(|_| Pipe::new().inverted).count();
    let fraction = inverted as f64 / n as f64;
    assert!((fraction - 0.4).abs() < 0.03, "fraction {}", fraction);
}

#[test]
fn step_moves_left_by_speed() {
    let p = Pipe { x: 800, h: 150, w: 50, inverted: true };
    assert_eq!(p.step(4), Some(Pipe { x: 796, h: 150, w: 50, inverted: true }));
    let edge = Pipe { x: -45, h: 150, w: 50, inverted: false };
    assert_eq!(edge.step(4), Some(Pipe { x: -49, h: 150, w: 50, inverted: false }));
}

#[test]
fn step_expires_when_right_edge_leaves() {
    let p = Pipe { x: -46, h: 150, w: 50, inverted: false };
    assert_eq!(p.step(4), None);
    let q = Pipe { x: 2, h: 150, w: 50, inverted: false };
    assert_eq!(q.step(52), None);
}

#[test]
fn new_collection_holds_one_spawned_pipe() {
    let pipes = Pipes::new();
    assert_eq!(pipes.pipes().len(), 1);
    check_spawned(&pipes.pipes()[0]);
    assert_eq!(pipes.speed(), 4);
    assert_eq!(SPEED, 4);
}

#[test]
fn update_moves_until_replacement() {
    let mut pipes = Pipes::new();
    let first = pipes.pipes()[0];
    let mut x = first.x;
    let mut frames = 0;
    loop {
        pipes.update();
        frames += 1;
        assert_eq!(pipes.pipes().len(), 1);
        let p = pipes.pipes()[0];
        if x - SPEED + PIPE_WIDTH > 0 {
            assert_eq!(p, Pipe { x: x - SPEED, ..first });
            x = p.x;
        } else {
            check_spawned(&p);
            assert_eq!(p.x, SPAWN_X);
            break;
        }
    }
    // From 800, the right edge reaches 0 on the frame where x becomes -52.
    assert_eq!(frames, 213);
}

#[test]
fn restart_yields_one_fresh_pipe() {
    let mut pipes = Pipes::new();
    for _ in 0..50 {
        pipes.update();
    }
    assert_eq!(pipes.pipes()[0].x, 600);
    pipes.restart();
    assert_eq!(pipes.pipes().len(), 1);
    check_spawned(&pipes.pipes()[0]);
    assert_eq!(pipes.speed(), 4);
}

#[test]
fn hitbox_inside_upright_pipe_touches() {
    let p = Pipe { x: 300, h: 200, w: 50, inverted: false };
    let bird = Bounds { x: 310, y: 450, w: 20, h: 20 };
    assert!(p.touch(&bird));
}

#[test]
fn hitbox_outside_upright_pipe_does_not_touch() {
    let p = Pipe { x: 300, h: 200, w: 50, inverted: false };
    assert!(!p.touch(&Bounds { x: 310, y: 100, w: 20, h: 20 }));
    assert!(!p.touch(&Bounds { x: 100, y: 450, w: 20, h: 20 }));
    assert!(!p.touch(&Bounds { x: 350, y: 450, w: 20, h: 20 }));
    assert!(!p.touch(&Bounds { x: 310, y: 380, w: 20, h: 20 }));
}

#[test]
fn inverted_pipe_touches_near_the_top() {
    let p = Pipe { x: 300, h: 200, w: 50, inverted: true };
    assert!(p.touch(&Bounds { x: 310, y: 100, w: 20, h: 20 }));
    assert!(!p.touch(&Bounds { x: 310, y: 450, w: 20, h: 20 }));
    assert!(p.touch(&Bounds { x: 349, y: 199, w: 20, h: 20 }));
}

#[test]
fn empty_hitbox_touches_nothing() {
    let p = Pipe { x: 300, h: 200, w: 50, inverted: false };
    assert!(!p.touch(&Bounds { x: 310, y: 450, w: 0, h: 20 }));
}

#[test]
fn collection_touch_reports_the_pipe() {
    let pipes = Pipes::new();
    let p = pipes.pipes()[0];
    let top = if p.inverted { 0 } else { 600 - p.h };
    assert!(pipes.touch(&Bounds { x: p.x + 1, y: top + 1, w: 10, h: 10 }));
    assert!(!pipes.touch(&Bounds { x: 0, y: 0, w: 10, h: 10 }));
}

#[test]
fn bounds_intersect() {
    let a = Bounds { x: 0, y: 0, w: 10, h: 10 };
    assert!(a.intersects(&Bounds { x: 9, y: 9, w: 5, h: 5 }));
    assert!(!a.intersects(&Bounds { x: 10, y: 0, w: 5, h: 5 }));
}

#[test]
fn inverted_pipe_is_drawn_from_the_top_flipped() {
    let p = Pipe { x: 500, h: 250, w: 50, inverted: true };
    assert_eq!(
        p.placement(),
        Placement { rect: Bounds { x: 500, y: 0, w: 50, h: 250 }, flip_vertical: true }
    );
}

#[test]
fn upright_pipe_is_drawn_on_the_bottom_unflipped() {
    let p = Pipe { x: 500, h: 250, w: 50, inverted: false };
    assert_eq!(
        p.placement(),
        Placement { rect: Bounds { x: 500, y: 350, w: 50, h: 250 }, flip_vertical: false }
    );
}
