use goban::board::Board;
use goban::game::Game;
use goban::{Cell, Color, GameError, Point};

const EMPTY_3: &str = "|##|\t|00|\t|01|\t|02|\t\
                       \n|00|\t|* | \t|* | \t|* | \t\
                       \n|01|\t|* | \t|* | \t|* | \t\
                       \n|02|\t|* | \t|* | \t|* | \t";

#[test]
fn create_game() {
    let mut g: Game = Game::new("nordine", "mohamed", 19).unwrap();
    assert_eq!("nordine", g.get_player_1());
    assert_eq!("mohamed", g.get_player_2());
    g.play(&Point(4, 4)).unwrap();
    g.play(&Point(6, 5)).unwrap();
    g.play(&Point(6, 4)).unwrap();
    println!("{}", g.board().render());
}

#[test]
fn invalid_board_size() {
    assert_eq!(
        Game::new("nordine", "mohamed", 11).err(),
        Some(GameError::InvalidBoardSize)
    );
}

#[test]
fn board_valid_sizes_all_empty() {
    for size in [3u8, 9, 19] {
        let b = Board::new(size).unwrap();
        for row in 0..size {
            for col in 0..size {
                assert_eq!(b.get_cell(&Point(row, col)), Some(Cell::Empty));
            }
        }
        assert_eq!(b.get_cell(&Point(size, 0)), None);
        assert_eq!(b.get_cell(&Point(0, size)), None);
    }
}

#[test]
fn board_invalid_sizes() {
    for size in [0u8, 1, 2, 4, 11, 18, 20, 255] {
        assert_eq!(Board::new(size).err(), Some(GameError::InvalidBoardSize));
        assert_eq!(
            Game::new("nordine", "mohamed", size).err(),
            Some(GameError::InvalidBoardSize)
        );
    }
}

#[test]
fn plays_alternate_colors() {
    let mut g = Game::new("nordine", "mohamed", 19).unwrap();
    g.play(&Point(4, 4)).unwrap();
    assert_eq!(
        g.board().get_cell(&Point(4, 4)),
        Some(Cell::Stone(Color::Black))
    );
    g.play(&Point(6, 5)).unwrap();
    assert_eq!(
        g.board().get_cell(&Point(6, 5)),
        Some(Cell::Stone(Color::White))
    );
    g.play(&Point(6, 4)).unwrap();
    assert_eq!(
        g.board().get_cell(&Point(6, 4)),
        Some(Cell::Stone(Color::Black))
    );
    for row in 0..19u8 {
        for col in 0..19u8 {
            let p = Point(row, col);
            if p != Point(4, 4) && p != Point(6, 5) && p != Point(6, 4) {
                assert_eq!(g.board().get_cell(&p), Some(Cell::Empty));
            }
        }
    }
}

#[test]
fn replay_occupied_point_changes_nothing() {
    let mut g = Game::new("nordine", "mohamed", 19).unwrap();
    g.play(&Point(4, 4)).unwrap();
    g.play(&Point(6, 5)).unwrap();
    g.play(&Point(6, 4)).unwrap();
    let before = g.board().render();
    assert_eq!(g.play(&Point(4, 4)), Err(GameError::OccupiedCell));
    assert_eq!(g.board().render(), before);
    // The turn did not move either: the next successful play is still White's.
    g.play(&Point(0, 0)).unwrap();
    assert_eq!(
        g.board().get_cell(&Point(0, 0)),
        Some(Cell::Stone(Color::White))
    );
}

#[test]
fn play_out_of_bounds_changes_nothing() {
    let mut g = Game::new("nordine", "mohamed", 19).unwrap();
    let before = g.board().render();
    assert_eq!(g.play(&Point(19, 0)), Err(GameError::OutOfBounds));
    assert_eq!(g.play(&Point(0, 19)), Err(GameError::OutOfBounds));
    assert_eq!(g.board().render(), before);
    // The turn did not move: the next successful play is still Black's.
    g.play(&Point(0, 0)).unwrap();
    assert_eq!(
        g.board().get_cell(&Point(0, 0)),
        Some(Cell::Stone(Color::Black))
    );
}

#[test]
fn change_cell_rules() {
    let mut b = Board::new(3).unwrap();
    assert_eq!(
        b.change_cell(&Point(3, 0), Cell::Stone(Color::Black)),
        Err(GameError::OutOfBounds)
    );
    assert_eq!(b.change_cell(&Point(1, 1), Cell::Stone(Color::Black)), Ok(()));
    assert_eq!(
        b.change_cell(&Point(1, 1), Cell::Stone(Color::White)),
        Err(GameError::OccupiedCell)
    );
    assert_eq!(b.get_cell(&Point(1, 1)), Some(Cell::Stone(Color::Black)));
}

#[test]
fn render_empty_board() {
    let b = Board::new(3).unwrap();
    assert_eq!(b.render(), EMPTY_3);
}

#[test]
fn render_stones() {
    let mut b = Board::new(3).unwrap();
    b.change_cell(&Point(0, 0), Cell::Stone(Color::Black)).unwrap();
    b.change_cell(&Point(1, 2), Cell::Stone(Color::White)).unwrap();
    let expected = "|##|\t|00|\t|01|\t|02|\t\
                    \n|00|\t|B | \t|* | \t|* | \t\
                    \n|01|\t|* | \t|* | \t|W |\t\
                    \n|02|\t|* | \t|* | \t|* | \t";
    assert_eq!(b.render(), expected);
}

#[test]
fn render_depends_only_on_content() {
    // Two games reach the same cell contents through different move orders.
    let mut g1 = Game::new("nordine", "mohamed", 9).unwrap();
    g1.play(&Point(0, 0)).unwrap();
    g1.play(&Point(1, 1)).unwrap();
    g1.play(&Point(2, 2)).unwrap();
    let mut g2 = Game::new("ada", "grace", 9).unwrap();
    g2.play(&Point(2, 2)).unwrap();
    g2.play(&Point(1, 1)).unwrap();
    g2.play(&Point(0, 0)).unwrap();
    assert_eq!(g1.board().render(), g2.board().render());
    // Rendering twice without a mutation in between yields the same text.
    assert_eq!(g1.board().render(), g1.board().render());
}
