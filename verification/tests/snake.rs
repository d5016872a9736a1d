use snake_game::snake::Snake;

#[test]
fn new_snake_stacks_its_segments_on_one_cell() {
    let snake = Snake::new((10, 10), 4);
    assert_eq!(snake.len(), 4);
    assert_eq!(snake.occupied_len(), 1);
    assert_eq!(*snake.get_first_segment(), (10, 10));
    assert_eq!(*snake.get_last_segment(), (10, 10));
    assert!(snake.is_inside(&(10, 10)));
    assert!(!snake.is_inside(&(11, 10)));
}

#[test]
fn new_snake_of_no_segments_is_empty() {
    let snake = Snake::new((3, 4), 0);
    assert_eq!(snake.len(), 0);
    assert_eq!(snake.occupied_len(), 0);
    assert!(!snake.is_inside(&(3, 4)));
}

#[test]
fn new_snake_of_one_segment() {
    let snake = Snake::new((3, 4), 1);
    assert_eq!(snake.len(), 1);
    assert_eq!(snake.occupied_len(), 1);
    assert_eq!(*snake.get_first_segment(), (3, 4));
}

#[test]
fn add_segment_puts_a_new_head_behind_the_old_one() {
    let mut snake = Snake::new((10, 10), 4);
    snake.add_segment((11, 10));
    assert_eq!(snake.len(), 5);
    assert_eq!(snake.occupied_len(), 2);
    assert_eq!(*snake.get_first_segment(), (11, 10));
    assert_eq!(*snake.get_last_segment(), (10, 10));
    assert!(snake.is_inside(&(11, 10)));
    assert!(snake.is_inside(&(10, 10)));
}

#[test]
fn add_segment_takes_a_cell_twice() {
    let mut snake = Snake::new((1, 1), 1);
    snake.add_segment((2, 1));
    snake.add_segment((2, 1));
    assert_eq!(snake.len(), 3);
    assert_eq!(snake.occupied_len(), 2);
}

#[test]
fn remove_last_segment_drops_the_oldest_segment() {
    let mut snake = Snake::new((1, 1), 1);
    snake.add_segment((2, 1));
    snake.add_segment((3, 1));
    snake.remove_last_segment();
    assert_eq!(snake.len(), 2);
    assert_eq!(*snake.get_last_segment(), (2, 1));
    assert_eq!(*snake.get_first_segment(), (3, 1));
    assert!(!snake.is_inside(&(1, 1)));
    assert!(snake.is_inside(&(2, 1)));
    assert!(snake.is_inside(&(3, 1)));
    assert_eq!(snake.occupied_len(), 2);
}

#[test]
fn first_removal_leaves_the_shared_start_cell_occupied() {
    let mut snake = Snake::new((10, 10), 4);
    snake.remove_last_segment();
    assert_eq!(snake.len(), 3);
    assert_eq!(*snake.get_last_segment(), (10, 10));
    assert_eq!(*snake.get_first_segment(), (10, 10));
    assert!(snake.is_inside(&(10, 10)));
    assert_eq!(snake.occupied_len(), 1);
}

#[test]
fn all_but_the_last_removal_of_a_stack_leave_the_set_alone() {
    let mut snake = Snake::new((10, 10), 4);
    for left in [3, 2, 1] {
        snake.remove_last_segment();
        assert_eq!(snake.len(), left);
        assert!(snake.is_inside(&(10, 10)));
        assert_eq!(snake.occupied_len(), 1);
    }
    snake.remove_last_segment();
    assert_eq!(snake.len(), 0);
    assert!(!snake.is_inside(&(10, 10)));
    assert_eq!(snake.occupied_len(), 0);
}

#[test]
fn three_rounds_of_add_and_remove_spread_a_fresh_snake() {
    let mut snake = Snake::new((10, 10), 4);
    snake.add_segment((11, 10));
    snake.remove_last_segment();
    assert_eq!(snake.occupied_len(), 2);
    snake.add_segment((12, 10));
    snake.remove_last_segment();
    assert_eq!(snake.occupied_len(), 3);
    snake.add_segment((13, 10));
    snake.remove_last_segment();
    assert_eq!(snake.len(), 4);
    assert_eq!(snake.occupied_len(), 4);
    for cell in [(10, 10), (11, 10), (12, 10), (13, 10)] {
        assert!(snake.is_inside(&cell));
    }
    assert!(!snake.is_inside(&(14, 10)));
    assert_eq!(*snake.get_last_segment(), (10, 10));
    assert_eq!(*snake.get_first_segment(), (13, 10));
    snake.add_segment((14, 10));
    snake.remove_last_segment();
    assert_eq!(snake.len(), 4);
    assert_eq!(snake.occupied_len(), 4);
    assert!(!snake.is_inside(&(10, 10)));
    assert_eq!(*snake.get_last_segment(), (11, 10));
}

#[test]
fn a_cell_stays_occupied_while_a_later_segment_lies_on_it() {
    let mut snake = Snake::new((1, 1), 1);
    snake.add_segment((2, 1));
    snake.add_segment((1, 1));
    snake.remove_last_segment();
    assert_eq!(snake.len(), 2);
    assert!(snake.is_inside(&(1, 1)));
    assert!(snake.is_inside(&(2, 1)));
    assert_eq!(snake.occupied_len(), 2);
    snake.remove_last_segment();
    assert!(snake.is_inside(&(1, 1)));
    assert!(!snake.is_inside(&(2, 1)));
    assert_eq!(snake.occupied_len(), 1);
}

#[test]
fn removing_the_only_segment_empties_the_snake() {
    let mut snake = Snake::new((5, 5), 1);
    snake.remove_last_segment();
    assert_eq!(snake.len(), 0);
    assert_eq!(snake.occupied_len(), 0);
    assert!(!snake.is_inside(&(5, 5)));
}

#[test]
fn is_inside_tells_occupied_cells_from_free_ones() {
    let mut snake = Snake::new((0, 0), 1);
    snake.add_segment((65535, 65535));
    assert!(snake.is_inside(&(0, 0)));
    assert!(snake.is_inside(&(65535, 65535)));
    assert!(!snake.is_inside(&(0, 65535)));
    assert!(!snake.is_inside(&(65535, 0)));
}
