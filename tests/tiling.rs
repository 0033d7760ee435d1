use pattern_editor::tiling::{
    generate_lines, generate_tiles, num_lines, num_tiles, svg_coordinate, Shape, Tiling, TilingFormat, Vertex,
    PATTERN_SIZE_SQUARES,
};

const FORMATS: [(TilingFormat, usize, usize); 4] = [
    (TilingFormat::F5X5, 1, 1),
    (TilingFormat::F10X10, 2, 2),
    (TilingFormat::F10X15, 2, 3),
    (TilingFormat::F15X15, 3, 3),
];

fn v(x: i64, y: i64) -> Vertex {
    Vertex::new(x, y)
}

/// Twice the signed area of a polygon, in square steps.
fn twice_area(points: &[Vertex]) -> i64 {
    let n = points.len();
    (0..n)
        .map(|k| {
            let (a, b) = (points[k], points[(k + 1) % n]);
            a.x * b.y - b.x * a.y
        })
        .sum()
}

#[test]
fn tile_count_matches_formula_for_every_format() {
    for (format, reps_x, reps_y) in FORMATS {
        let expected = 2 * reps_x * PATTERN_SIZE_SQUARES * reps_y * PATTERN_SIZE_SQUARES;
        assert_eq!(generate_tiles(reps_x, reps_y).len(), expected);
        assert_eq!(num_tiles(reps_x, reps_y), expected);
        assert_eq!(Tiling::load(format).num_tiles(), expected);
        assert_eq!(Tiling::load(format).iter_tiles().len(), expected);
    }
    assert_eq!(Tiling::load(TilingFormat::F5X5).num_tiles(), 50);
    assert_eq!(num_tiles(0, 3), 0);
    assert_eq!(num_tiles(4, 0), 0);
    assert_eq!(Tiling::load(TilingFormat::F15X15).num_tiles(), 450);
}

#[test]
fn every_vertex_lies_in_the_viewport() {
    for (format, _, _) in FORMATS {
        let tiling = Tiling::load(format);
        let width = (tiling.viewport_width() * PATTERN_SIZE_SQUARES) as i64;
        let height = (tiling.viewport_height() * PATTERN_SIZE_SQUARES) as i64;
        for shape in tiling.iter_tiles() {
            assert_eq!(shape.0.len(), 4);
            for p in shape.0 {
                assert!(0 <= p.x && p.x <= width, "{p:?} outside width {width}");
                assert!(0 <= p.y && p.y <= height, "{p:?} outside height {height}");
            }
        }
    }
}

#[test]
fn halves_of_a_square_share_the_boundary_and_fill_it() {
    let tiles = generate_tiles(1, 1);
    let width = 5;
    for y in 0..5usize {
        for x in 0..5usize {
            let left = tiles[2 * (y * width + x)];
            let right = tiles[2 * (y * width + x) + 1];
            assert_eq!(left[1], right[0]);
            assert_eq!(left[2], right[3]);
            assert_ne!(left[1], left[2]);
            let mut shared: Vec<Vertex> =
                left.iter().copied().filter(|p| right.contains(p)).collect();
            shared.dedup();
            assert_eq!(shared, vec![left[1], left[2]]);
            let (a, b) = (twice_area(&left), twice_area(&right));
            assert!(a >= 0 && b >= 0);
            // One square is 5 x 5 steps, so twice its area is 50.
            assert_eq!(a + b, 50);
        }
    }
}

#[test]
fn sampled_square_area_is_one() {
    let tiles = generate_tiles(2, 2);
    // Square (3, 2): offset index 2, so the boundary runs from 3.6 to 3.4.
    let i = 2 * (2 * 10 + 3);
    assert_eq!(tiles[i], [v(15, 10), v(18, 10), v(17, 15), v(15, 15)]);
    assert_eq!(tiles[i + 1], [v(18, 10), v(20, 10), v(20, 15), v(17, 15)]);
    assert_eq!(twice_area(&tiles[i]) + twice_area(&tiles[i + 1]), 50);
}

#[test]
fn line_counts_match_formula_for_every_format() {
    for (format, reps_x, reps_y) in FORMATS {
        let width = reps_x * PATTERN_SIZE_SQUARES;
        let height = reps_y * PATTERN_SIZE_SQUARES;
        let expected = (width - 1) + (height - 1) + (width - 1 + reps_y);
        assert_eq!(generate_lines(reps_x, reps_y).len(), expected);
        assert_eq!(num_lines(reps_x, reps_y), expected);
        assert_eq!(Tiling::load(format).iter_lines().len(), expected);
    }
    assert_eq!(num_lines(1, 1), 4 + 4 + 5);
}

#[test]
fn line_families_of_smallest_format() {
    let lines = generate_lines(1, 1);
    let vertical: Vec<_> = lines[..4].to_vec();
    let horizontal: Vec<_> = lines[4..8].to_vec();
    let diagonal: Vec<_> = lines[8..].to_vec();
    assert_eq!(vertical[0], [v(5, 0), v(5, 25)]);
    assert_eq!(vertical[3], [v(20, 0), v(20, 25)]);
    assert_eq!(horizontal[0], [v(0, 5), v(25, 5)]);
    assert_eq!(horizontal[3], [v(0, 20), v(25, 20)]);
    assert_eq!(diagonal.len(), 5);
    assert_eq!(diagonal[0], [v(5, 0), v(0, 25)]);
    assert_eq!(diagonal[4], [v(25, 0), v(20, 25)]);
}

#[test]
fn diagonals_follow_tile_boundaries() {
    let (reps_x, reps_y) = (2, 3);
    let tiles = generate_tiles(reps_x, reps_y);
    let lines = generate_lines(reps_x, reps_y);
    let width = reps_x * PATTERN_SIZE_SQUARES;
    let height = reps_y * PATTERN_SIZE_SQUARES;
    let diagonals = &lines[(width - 1) + (height - 1)..];
    for (k, [top, bottom]) in diagonals.iter().enumerate() {
        assert_eq!(top.x, (k as i64 + 1) * 5);
        assert_eq!(top.x - bottom.x, reps_y as i64 * 5);
        // Each boundary that crosses the line has both end points on it.
        for y in 0..height {
            for x in 0..width {
                let left = tiles[2 * (y * width + x)];
                let (a, b) = (left[1], left[2]);
                let on_line = |p: Vertex| {
                    (p.x - top.x) * (bottom.y - top.y) == (bottom.x - top.x) * (p.y - top.y)
                };
                if on_line(a) {
                    assert!(on_line(b));
                }
            }
        }
    }
}

#[test]
fn generating_twice_gives_the_same_tiling() {
    for (format, reps_x, reps_y) in FORMATS {
        assert_eq!(generate_tiles(reps_x, reps_y), generate_tiles(reps_x, reps_y));
        assert_eq!(generate_lines(reps_x, reps_y), generate_lines(reps_x, reps_y));
        let (a, b) = (Tiling::load(format), Tiling::load(format));
        assert!(a == b);
        assert_eq!(a.iter_lines(), b.iter_lines());
        let paths_a: Vec<String> = a.iter_tiles().iter().map(Shape::svg_path).collect();
        let paths_b: Vec<String> = b.iter_tiles().iter().map(Shape::svg_path).collect();
        assert_eq!(paths_a, paths_b);
    }
}

#[test]
fn first_square_of_smallest_pattern() {
    let tiles = generate_tiles(1, 1);
    assert_eq!(tiles.len(), 50);
    // (0,0), (1,0), (0.8,1), (0,1) in steps of a fifth.
    assert_eq!(tiles[0], [v(0, 0), v(5, 0), v(4, 5), v(0, 5)]);
    // (1,0), (1,0), (1,1), (0.8,1): the top edge is degenerate.
    assert_eq!(tiles[1], [v(5, 0), v(5, 0), v(5, 5), v(4, 5)]);
    assert_eq!(tiles[1][0], tiles[1][1]);
    let shapes = Tiling::load(TilingFormat::F5X5).iter_tiles();
    assert_eq!(shapes[0].svg_path(), "0,0 1,0 0.8,1 0,1");
    assert_eq!(shapes[1].svg_path(), "1,0 1,0 1,1 0.8,1");
}

#[test]
fn two_repetitions_across_stay_within_ten_squares() {
    let tiles = generate_tiles(2, 1);
    assert_eq!(tiles.len(), 100);
    let max_x = tiles.iter().flat_map(|t| t.iter()).map(|p| p.x).max().unwrap();
    let max_y = tiles.iter().flat_map(|t| t.iter()).map(|p| p.y).max().unwrap();
    assert_eq!(max_x, 10 * 5);
    assert_eq!(max_y, 5 * 5);
}

#[test]
fn last_row_of_a_band_ends_on_the_left_edge() {
    let tiles = generate_tiles(1, 1);
    // Square (0, 4): offset index 4, boundary from 0.2 down to 0.
    let i = 2 * (4 * 5);
    assert_eq!(tiles[i], [v(0, 20), v(1, 20), v(0, 25), v(0, 25)]);
    assert_eq!(tiles[i + 1], [v(1, 20), v(5, 20), v(5, 25), v(0, 25)]);
    let last = tiles.last().unwrap();
    assert_eq!(*last, [v(21, 20), v(25, 20), v(25, 25), v(20, 25)]);
}

#[test]
fn viewport_sizes() {
    let sizes = [(5, 5), (10, 10), (10, 15), (15, 15)];
    for ((format, _, _), (w, h)) in FORMATS.into_iter().zip(sizes) {
        let tiling = Tiling::load(format);
        assert_eq!(tiling.viewport_width(), w);
        assert_eq!(tiling.viewport_height(), h);
    }
}

#[test]
fn tilings_compare_by_size() {
    assert!(Tiling::load(TilingFormat::F10X10) != Tiling::load(TilingFormat::F5X5));
    assert!(Tiling::load(TilingFormat::F10X15) == Tiling::load(TilingFormat::F10X15));
}

#[test]
fn formats_by_index() {
    assert_eq!(TilingFormat::from_index(0), Some(TilingFormat::F5X5));
    assert_eq!(TilingFormat::from_index(1), Some(TilingFormat::F10X10));
    assert_eq!(TilingFormat::from_index(2), Some(TilingFormat::F10X15));
    assert_eq!(TilingFormat::from_index(3), Some(TilingFormat::F15X15));
    assert_eq!(TilingFormat::from_index(4), None);
    for (format, _, _) in FORMATS {
        assert_eq!(TilingFormat::from_index(format as u8), Some(format));
    }
}

#[test]
fn point_text_rounds_to_steps() {
    assert_eq!(v(0, 0).svg_point(), "0,0");
    assert_eq!(v(4, 5).svg_point(), "0.8,1");
    assert_eq!(v(71, 3).svg_point(), "14.2,0.6");
    assert_eq!(v(-1, 50).svg_point(), "-0.2,10");
    assert_eq!(v(-25, -7).svg_point(), "-5,-1.4");
}

#[test]
fn path_text_of_shapes() {
    assert_eq!(Shape(vec![]).svg_path(), "");
    assert_eq!(Shape(vec![v(3, 2)]).svg_path(), "0.6,0.4");
    assert_eq!(Shape(vec![v(3, 2), v(10, 0), v(1, 1)]).svg_path(), "0.6,0.4 2,0 0.2,0.2");
}

#[test]
fn coordinates_in_squares() {
    assert_eq!(svg_coordinate(0), "0");
    assert_eq!(svg_coordinate(5), "1");
    assert_eq!(svg_coordinate(12), "2.4");
    assert_eq!(svg_coordinate(-10), "-2");
}
