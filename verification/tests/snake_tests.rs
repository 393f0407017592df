use snake_game::snake::{MoveDirection, SnakePart};

#[test]
fn init_is_single_head_at_start() {
    let s = SnakePart::init();
    assert_eq!(s.length(), 1);
    assert_eq!(s.position(), (11, 11));
    let head = s.head_position();
    assert_eq!((head.x, head.y), (11, 11));
    assert_eq!(s.direction(), MoveDirection::Right);
}

#[test]
fn opposite_of_each_direction() {
    assert_eq!(MoveDirection::Up.opposite(), MoveDirection::Down);
    assert_eq!(MoveDirection::Down.opposite(), MoveDirection::Up);
    assert_eq!(MoveDirection::Left.opposite(), MoveDirection::Right);
    assert_eq!(MoveDirection::Right.opposite(), MoveDirection::Left);
}

#[test]
fn move_forward_each_direction() {
    let mut s = SnakePart::init();
    s.move_forward(None);
    assert_eq!(s.position(), (12, 11));
    s.move_forward(Some(MoveDirection::Down));
    assert_eq!(s.position(), (12, 12));
    s.move_forward(Some(MoveDirection::Left));
    assert_eq!(s.position(), (11, 12));
    s.move_forward(Some(MoveDirection::Up));
    assert_eq!(s.position(), (11, 11));
    assert_eq!(s.direction(), MoveDirection::Up);
}

#[test]
fn follow_the_leader_length_1() {
    let mut s = SnakePart::init();
    s.move_forward(None);
    assert_eq!(s.length(), 1);
    assert_eq!(s.segment_position(0), (12, 11));
}

#[test]
fn follow_the_leader_length_2() {
    let mut s = SnakePart::init();
    s.add_part(10, 11);
    let before = [s.segment_position(0), s.segment_position(1)];
    s.move_forward(None);
    assert_eq!(s.length(), 2);
    assert_eq!(s.segment_position(0), (12, 11));
    assert_eq!(s.segment_position(1), before[0]);
}

#[test]
fn follow_the_leader_length_5() {
    let mut s = SnakePart::init();
    s.add_part(10, 11);
    s.add_part(9, 11);
    s.add_part(9, 10);
    s.add_part(9, 9);
    let before: Vec<(i32, i32)> = (0..5).map(|i| s.segment_position(i)).collect();
    s.move_forward(Some(MoveDirection::Down));
    assert_eq!(s.length(), 5);
    assert_eq!(s.segment_position(0), (11, 12));
    for i in 1..5 {
        assert_eq!(s.segment_position(i), before[i - 1]);
    }
}

#[test]
fn grow_appends_body_at_given_cell() {
    let mut s = SnakePart::init();
    s.add_part(10, 11);
    assert_eq!(s.length(), 2);
    assert_eq!(s.segment_position(1), (10, 11));
    assert_eq!(s.direction(), MoveDirection::Right);
}

#[test]
fn overlap_tail_is_head_exclusive() {
    let mut s = SnakePart::init();
    s.add_part(10, 11);
    s.add_part(9, 11);
    assert!(!s.overlap_tail(11, 11));
    assert!(s.overlap_tail(10, 11));
    assert!(s.overlap_tail(9, 11));
    assert!(!s.overlap_tail(8, 11));
}

#[test]
fn is_inside_covers_whole_chain() {
    let mut s = SnakePart::init();
    s.add_part(10, 11);
    s.add_part(9, 11);
    assert!(s.is_inside(11, 11));
    assert!(s.is_inside(10, 11));
    assert!(s.is_inside(9, 11));
    assert!(!s.is_inside(12, 11));
}
