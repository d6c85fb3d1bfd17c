use ninepatch::layout::NinePatch;
use ninepatch::model::{IVec2, Size, Val};
use ninepatch::slicer::{NinePatchBuilder, SliceError, SourceImage};

/// An image whose pixel at (x, y) holds the bytes
/// (x, y, x ^ y, 255), so every slice's bytes are predictable.
fn test_image(width: u32, height: u32) -> SourceImage {
    let mut data = Vec::new();
    for y in 0..height {
        for x in 0..width {
            data.push(x as u8);
            data.push(y as u8);
            data.push((x ^ y) as u8);
            data.push(255);
        }
    }
    SourceImage { width, height, data }
}

fn dims(np: &NinePatch<u32>) -> Vec<(u32, u32)> {
    np.splitted_texture.iter().map(|t| (t.width, t.height)).collect()
}

#[test]
fn size_new_keeps_fields() {
    let s = Size::new(Val::Px(3), Val::Auto);
    assert_eq!(s.width, Val::Px(3));
    assert_eq!(s.height, Val::Auto);
}

#[test]
fn ivec2_new_keeps_fields() {
    let v = IVec2::new(-7, 4);
    assert_eq!(v.x, -7);
    assert_eq!(v.y, 4);
}

#[test]
fn from_patches_starts_with_empty_cache() {
    let patch: ninepatch::model::Patch<u32> = ninepatch::model::Patch {
        original_size: IVec2::new(2, 2),
        target_size: Size::new(Val::Px(0), Val::Px(0)),
        content: None,
    };
    let b = NinePatchBuilder::from_patches(vec![vec![patch]]);
    assert_eq!(b.patches.len(), 1);
    assert_eq!(b.patches[0].len(), 1);
    assert!(b.patch_textures.is_none());
    assert!(b.original_texture.is_none());
    assert_eq!(b.recomputations, 0);
}

#[test]
fn by_margins_with_content_builds_the_canonical_grid() {
    let b = NinePatchBuilder::by_margins_with_content(1, 2, 3, 4, 7u32);
    assert_eq!(b.patches.len(), 3);
    for row in &b.patches {
        assert_eq!(row.len(), 3);
    }
    // Encoded extents: x is 3 / -(3 + 4) / 4, y is 1 / -(1 + 2) / 2.
    let xs: [i32; 3] = [3, -7, 4];
    let ys: [i32; 3] = [1, -3, 2];
    for (r, row) in b.patches.iter().enumerate() {
        for (c, p) in row.iter().enumerate() {
            assert_eq!(p.original_size, IVec2 { x: xs[c], y: ys[r] });
        }
    }
    // Corners fixed, edges stretch on one axis, center on both.
    assert_eq!(b.patches[0][0].target_size, Size::new(Val::Px(0), Val::Px(0)));
    assert_eq!(b.patches[0][1].target_size, Size::new(Val::Auto, Val::Px(0)));
    assert_eq!(b.patches[1][0].target_size, Size::new(Val::Px(0), Val::Auto));
    assert_eq!(b.patches[1][1].target_size, Size::new(Val::Auto, Val::Auto));
    assert_eq!(b.patches[1][2].target_size, Size::new(Val::Px(0), Val::Auto));
    assert_eq!(b.patches[2][1].target_size, Size::new(Val::Auto, Val::Px(0)));
    assert_eq!(b.patches[2][2].target_size, Size::new(Val::Px(0), Val::Px(0)));
    // Only the center cell is a content slot.
    for (r, row) in b.patches.iter().enumerate() {
        for (c, p) in row.iter().enumerate() {
            if r == 1 && c == 1 {
                assert_eq!(p.content, Some(7u32));
            } else {
                assert_eq!(p.content, None);
            }
        }
    }
}

#[test]
fn by_margins_tags_center_with_default() {
    let b: NinePatchBuilder<u32> = NinePatchBuilder::by_margins(5, 5, 5, 5);
    assert_eq!(b.patches[1][1].content, Some(0u32));
}

#[test]
fn not_ready_when_image_is_missing() {
    let mut b: NinePatchBuilder<u32> = NinePatchBuilder::by_margins(5, 5, 5, 5);
    let r = b.apply(None, 1);
    assert_eq!(r.unwrap_err(), SliceError::NotReady);
    assert!(b.patch_textures.is_none());
    assert!(b.original_texture.is_none());
    assert_eq!(b.recomputations, 0);
}

#[test]
fn margins_20_on_100x100_gives_nine_patches() {
    let mut b: NinePatchBuilder<u32> = NinePatchBuilder::by_margins(20, 20, 20, 20);
    let img = test_image(100, 100);
    let np = b.apply(Some(&img), 1).unwrap();
    assert_eq!(
        dims(&np),
        vec![
            (20, 20),
            (60, 20),
            (20, 20),
            (20, 60),
            (60, 60),
            (20, 60),
            (20, 20),
            (60, 20),
            (20, 20),
        ]
    );
    assert_eq!(np.texture_size.width, 100);
    assert_eq!(np.texture_size.height, 100);
    // Each slice holds w * h pixels at 4 bytes each.
    for t in &np.splitted_texture {
        assert_eq!(t.data.len(), (t.width * t.height * 4) as usize);
    }
}

#[test]
fn asymmetric_margins_give_the_documented_dimensions() {
    // Margins (top, bottom, left, right) = (2, 3, 4, 5) on a 30 x 20 image:
    // widths 4 / 21 / 5 per row, heights 2 / 15 / 3 per column.
    let mut b: NinePatchBuilder<u32> = NinePatchBuilder::by_margins(2, 3, 4, 5);
    let img = test_image(30, 20);
    let np = b.apply(Some(&img), 1).unwrap();
    assert_eq!(
        dims(&np),
        vec![
            (4, 2),
            (21, 2),
            (5, 2),
            (4, 15),
            (21, 15),
            (5, 15),
            (4, 3),
            (21, 3),
            (5, 3),
        ]
    );
}

#[test]
fn explicit_row_resolves_negative_width_against_the_image() {
    // One row of three patches of original widths 30, -(30 + 10), 10 on a
    // 50-pixel-wide image: resolved widths 30, 10, 10.
    let mk = |x: i32| ninepatch::model::Patch::<u32> {
        original_size: IVec2::new(x, 0),
        target_size: Size::new(Val::Px(0), Val::Px(0)),
        content: None,
    };
    let mut b = NinePatchBuilder::from_patches(vec![vec![mk(30), mk(-40), mk(10)]]);
    let img = test_image(50, 1);
    let np = b.apply(Some(&img), 1).unwrap();
    assert_eq!(dims(&np), vec![(30, 1), (10, 1), (10, 1)]);
}

#[test]
fn slice_bytes_are_the_exact_rectangles() {
    // A 4 x 2 image cut into two 2 x 2 patches.
    let mk = |x: i32| ninepatch::model::Patch::<u32> {
        original_size: IVec2::new(x, 2),
        target_size: Size::new(Val::Px(0), Val::Px(0)),
        content: None,
    };
    let mut b = NinePatchBuilder::from_patches(vec![vec![mk(2), mk(-2)]]);
    let img = SourceImage { width: 4, height: 2, data: (0u8..32).collect() };
    let np = b.apply(Some(&img), 1).unwrap();
    assert_eq!(np.splitted_texture.len(), 2);
    // Left patch: columns 0..2 of both scanlines.
    let left: Vec<u8> = (0u8..8).chain(16..24).collect();
    // Right patch: columns 2..4 of both scanlines.
    let right: Vec<u8> = (8u8..16).chain(24..32).collect();
    assert_eq!(np.splitted_texture[0].data, left);
    assert_eq!(np.splitted_texture[1].data, right);
}

#[test]
fn slicing_twice_with_the_same_identity_reuses_the_cache() {
    let mut b: NinePatchBuilder<u32> = NinePatchBuilder::by_margins(10, 10, 10, 10);
    let img = test_image(40, 40);
    let np1 = b.apply(Some(&img), 9).unwrap();
    assert_eq!(b.recomputations, 1);
    let np2 = b.apply(Some(&img), 9).unwrap();
    // The recomputation counter shows the second call answered from cache.
    assert_eq!(b.recomputations, 1);
    assert_eq!(np1.splitted_texture.len(), np2.splitted_texture.len());
    for (a, c) in np1.splitted_texture.iter().zip(np2.splitted_texture.iter()) {
        assert_eq!(a.width, c.width);
        assert_eq!(a.height, c.height);
        assert_eq!(a.data, c.data);
    }
}

#[test]
fn changing_the_image_identity_invalidates_the_cache() {
    let mut b: NinePatchBuilder<u32> = NinePatchBuilder::by_margins(1, 1, 1, 1);
    let img_a = test_image(8, 8);
    let mut img_b = test_image(8, 8);
    for byte in img_b.data.iter_mut() {
        *byte = byte.wrapping_add(1);
    }
    let np_a = b.apply(Some(&img_a), 1).unwrap();
    assert_eq!(b.recomputations, 1);
    let np_b = b.apply(Some(&img_b), 2).unwrap();
    // A new identity recomputes instead of returning stale slices.
    assert_eq!(b.recomputations, 2);
    assert_eq!(b.original_texture, Some(2));
    assert_ne!(np_a.splitted_texture[0].data, np_b.splitted_texture[0].data);
    assert_eq!(np_b.splitted_texture[0].data[0], img_b.data[0]);
}

#[test]
fn slicing_is_deterministic_across_builders_and_unrelated_work() {
    let img = test_image(24, 24);
    let mut b1: NinePatchBuilder<u32> = NinePatchBuilder::by_margins(3, 3, 3, 3);
    let np1 = b1.apply(Some(&img), 1).unwrap();
    // Unrelated grid sliced in between must not change the outcome.
    let mut other: NinePatchBuilder<u32> = NinePatchBuilder::by_margins(5, 5, 5, 5);
    other.apply(Some(&test_image(32, 32)), 3).unwrap();
    let mut b2: NinePatchBuilder<u32> = NinePatchBuilder::by_margins(3, 3, 3, 3);
    let np2 = b2.apply(Some(&img), 2).unwrap();
    assert_eq!(np1.splitted_texture.len(), np2.splitted_texture.len());
    for (a, c) in np1.splitted_texture.iter().zip(np2.splitted_texture.iter()) {
        assert_eq!(a.width, c.width);
        assert_eq!(a.height, c.height);
        assert_eq!(a.data, c.data);
    }
}

#[test]
fn synthesized_center_grows_and_corners_stay_fixed() {
    let mut b: NinePatchBuilder<u32> = NinePatchBuilder::by_margins(20, 20, 20, 20);
    let img = test_image(100, 100);
    let np = b.apply(Some(&img), 1).unwrap();
    let rows = np.add_with_parent(77, &None);
    assert_eq!(rows.len(), 3);
    for row in &rows {
        assert_eq!(row.width, Val::Percent(100));
        assert_eq!(row.cells.len(), 3);
    }
    // Rows: fixed 20 px top and bottom, growing middle.
    assert_eq!(rows[0].height, Val::Px(20));
    assert_eq!(rows[0].grow, 0);
    assert_eq!(rows[1].height, Val::Auto);
    assert_eq!(rows[1].grow, 100);
    assert_eq!(rows[2].height, Val::Px(20));
    assert_eq!(rows[2].grow, 0);
    // Corner cells: weight 0, resolved pixel size exactly 20 x 20.
    for (r, c) in [(0usize, 0usize), (0, 2), (2, 0), (2, 2)] {
        let cell = &rows[r].cells[c];
        assert_eq!(cell.grow, 0);
        assert_eq!(cell.width, Val::Px(20));
        assert_eq!(cell.height, Val::Px(20));
    }
    // Center cell: positive weight on both axes (the row grows vertically,
    // the cell horizontally). Its height rule is the stretch rule, so it
    // resolves to Auto; the explicit-zero special case concerns center
    // cells with the fixed-zero sentinel, tested separately.
    let center = &rows[1].cells[1];
    assert!(center.grow > 0);
    assert!(rows[1].grow > 0);
    assert_eq!(center.height, Val::Auto);
    // Cells reference the flattened slices in row-major order.
    for (r, row) in rows.iter().enumerate() {
        for (c, cell) in row.cells.iter().enumerate() {
            assert_eq!(cell.texture_index, 3 * r + c);
        }
    }
}

#[test]
fn content_slot_carries_an_unattached_record() {
    let mut b = NinePatchBuilder::by_margins_with_content(10, 10, 10, 10, 5u32);
    let img = test_image(50, 50);
    let np = b.apply(Some(&img), 1).unwrap();
    let rows = np.add_with_parent(7, &None);
    let center = &rows[1].cells[1];
    let record = center.content.as_ref().unwrap();
    assert_eq!(record.content, 5);
    assert!(!record.loaded);
    assert_eq!(record.parent, 7);
    assert_eq!(center.existing_child, None);
    // No other cell offers a slot.
    for (r, row) in rows.iter().enumerate() {
        for (c, cell) in row.cells.iter().enumerate() {
            if !(r == 1 && c == 1) {
                assert!(cell.content.is_none());
                assert_eq!(cell.existing_child, None);
            }
        }
    }
}

#[test]
fn rebuilding_reparents_the_existing_subtree() {
    let mut b = NinePatchBuilder::by_margins_with_content(10, 10, 10, 10, 5u32);
    let img = test_image(50, 50);
    let np = b.apply(Some(&img), 1).unwrap();
    let contents = Some(vec![(4u32, 91u64), (5u32, 42u64)]);
    let rows = np.add_with_parent(7, &contents);
    // The subtree already built for tag 5 is re-parented, not duplicated.
    assert_eq!(rows[1].cells[1].existing_child, Some(42));
}

#[test]
fn rebuilding_without_a_matching_tag_attaches_nothing() {
    let mut b = NinePatchBuilder::by_margins_with_content(10, 10, 10, 10, 5u32);
    let img = test_image(50, 50);
    let np = b.apply(Some(&img), 1).unwrap();
    let contents = Some(vec![(9u32, 42u64)]);
    let rows = np.add_with_parent(7, &contents);
    assert_eq!(rows[1].cells[1].existing_child, None);
}

#[test]
fn center_sentinel_keeps_an_explicit_zero_height() {
    // In a grid whose cells all use the fixed-zero sentinel for height,
    // only the exact center cell (row 1, column 1) keeps the explicit 0:
    // its height is meant to come entirely from flex growth. Every other
    // cell infers its original pixel height.
    let mk = || ninepatch::model::Patch::<u32> {
        original_size: IVec2::new(2, 2),
        target_size: Size::new(Val::Px(0), Val::Px(0)),
        content: None,
    };
    let mut b = NinePatchBuilder::from_patches(vec![
        vec![mk(), mk(), mk()],
        vec![mk(), mk(), mk()],
        vec![mk(), mk(), mk()],
    ]);
    let img = test_image(6, 6);
    let np = b.apply(Some(&img), 1).unwrap();
    let rows = np.add_with_parent(1, &None);
    for (r, row) in rows.iter().enumerate() {
        for (c, cell) in row.cells.iter().enumerate() {
            if r == 1 && c == 1 {
                assert_eq!(cell.height, Val::Px(0));
            } else {
                assert_eq!(cell.height, Val::Px(2));
            }
        }
    }
}

#[test]
fn sizing_rules_resolve_per_the_table() {
    // One row exercising every rule: fixed non-zero, percent, undefined,
    // and the fixed-zero sentinel.
    let mk = |w: Val, h: Val| ninepatch::model::Patch::<u32> {
        original_size: IVec2::new(2, 6),
        target_size: Size::new(w, h),
        content: None,
    };
    let mut b = NinePatchBuilder::from_patches(vec![vec![
        mk(Val::Px(9), Val::Px(7)),
        mk(Val::Percent(50), Val::Percent(25)),
        mk(Val::Undefined, Val::Undefined),
        mk(Val::Px(0), Val::Px(0)),
    ]]);
    let img = test_image(8, 6);
    let np = b.apply(Some(&img), 1).unwrap();
    let rows = np.add_with_parent(1, &None);
    assert_eq!(rows.len(), 1);
    let cells = &rows[0].cells;
    // Fixed non-zero length: kept, no growth.
    assert_eq!(cells[0].width, Val::Px(9));
    assert_eq!(cells[0].grow, 0);
    assert_eq!(cells[0].height, Val::Px(7));
    // Percent: auto length, weight of p hundredths.
    assert_eq!(cells[1].width, Val::Auto);
    assert_eq!(cells[1].grow, 50);
    assert_eq!(cells[1].height, Val::Auto);
    // Undefined: treated as automatic for width; height passes through.
    assert_eq!(cells[2].width, Val::Auto);
    assert_eq!(cells[2].grow, 100);
    assert_eq!(cells[2].height, Val::Undefined);
    // Fixed zero sentinel off-center: the original pixel size.
    assert_eq!(cells[3].width, Val::Px(2));
    assert_eq!(cells[3].grow, 0);
    assert_eq!(cells[3].height, Val::Px(6));
    // The row takes its height rule from its first cell.
    assert_eq!(rows[0].height, Val::Px(7));
    assert_eq!(rows[0].grow, 0);
}
