use orbterm::block_handler::BlockHandler;

#[test]
fn new_remembers_the_first_size() {
    let handler = BlockHandler::new(8, 16);
    assert_eq!(handler.get(), (8, 16));
    assert_eq!(handler.default_block_width, 8);
    assert_eq!(handler.default_block_height, 16);
}

#[test]
fn set_block_size_clamps_to_the_zoom_bounds() {
    let mut handler = BlockHandler::new(8, 16);
    handler.set_block_size(2);
    assert_eq!(handler.get(), (4, 8));
    handler.set_block_size(100);
    assert_eq!(handler.get(), (48, 96));
    handler.set_block_size(10);
    assert_eq!(handler.get(), (10, 20));
    handler.set_block_size(4);
    assert_eq!(handler.get(), (4, 8));
    handler.set_block_size(48);
    assert_eq!(handler.get(), (48, 96));
    handler.set_block_size(0);
    assert_eq!(handler.get(), (4, 8));
    handler.set_block_size(usize::MAX);
    assert_eq!(handler.get(), (48, 96));
}

#[test]
fn height_is_twice_the_width_after_every_change() {
    let mut handler = BlockHandler::new(8, 16);
    for width in 0..60 {
        handler.set_block_size(width);
        let (w, h) = handler.get();
        assert_eq!(h, 2 * w);
        assert!(4 <= w && w <= 48);
    }
    for delta in -50isize..50 {
        handler.increase_block_size(delta);
        let (w, h) = handler.get();
        assert_eq!(h, 2 * w);
        assert!(4 <= w && w <= 48);
    }
}

#[test]
fn cell_from_pixel_counts_from_one() {
    let handler = BlockHandler::new(8, 16);
    assert_eq!(handler.get_block_from_coordinate(0, 0), (1, 1));
    assert_eq!(handler.get_block_from_coordinate(7, 15), (1, 1));
    assert_eq!(handler.get_block_from_coordinate(8, 16), (2, 2));
    assert_eq!(handler.get_block_from_coordinate(100, 100), (13, 7));
}

#[test]
fn cell_from_pixel_wraps_past_u16() {
    let handler = BlockHandler::new(4, 8);
    assert_eq!(handler.get_block_from_coordinate(4 * 65535, 8 * 65536), (0, 1));
}

#[test]
fn pixel_from_cell_multiplies_by_the_cell_size() {
    let handler = BlockHandler::new(8, 16);
    assert_eq!(handler.get_pixels_from_block(0, 0), (0, 0));
    assert_eq!(handler.get_pixels_from_block(3, 5), (24, 80));
}

#[test]
fn blocks_that_fit_divides_and_rounds_down() {
    let handler = BlockHandler::new(8, 16);
    assert_eq!(handler.how_many_blocks_fit(640, 384), (80, 24));
    assert_eq!(handler.how_many_blocks_fit(647, 399), (80, 24));
    assert_eq!(handler.how_many_blocks_fit(7, 15), (0, 0));
}

#[test]
fn increase_block_size_moves_within_the_bounds() {
    let mut handler = BlockHandler::new(8, 16);
    handler.increase_block_size(2);
    assert_eq!(handler.get(), (10, 20));
    handler.increase_block_size(-3);
    assert_eq!(handler.get(), (7, 14));
    handler.increase_block_size(-10);
    assert_eq!(handler.get(), (4, 8));
    handler.increase_block_size(1000);
    assert_eq!(handler.get(), (48, 96));
    handler.increase_block_size(isize::MIN);
    assert_eq!(handler.get(), (4, 8));
    handler.increase_block_size(isize::MAX);
    assert_eq!(handler.get(), (48, 96));
}

#[test]
fn reset_goes_back_to_the_first_size() {
    let mut handler = BlockHandler::new(12, 24);
    handler.set_block_size(30);
    handler.reset_to_default();
    assert_eq!(handler.get(), (12, 24));
    handler.increase_block_size(5);
    handler.reset_to_default();
    assert_eq!(handler.get(), (12, 24));
}
