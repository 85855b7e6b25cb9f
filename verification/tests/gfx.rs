use dirty::gfx::shapes::{cube, fan_indices, gradient_indices, Cube, FillMode, PointMode};
use dirty::gfx::{flip_corners, BitmapFont, CubeShape, Flip, NormalMode, Origin, TextAlign};
use dirty::modules::gfx::{self as g, GfxCtx, State};
use dirty::Error;

#[test]
fn origin_points() {
    assert_eq!(Origin::TopLeft.as_pt(), (-1, -1));
    assert_eq!(Origin::Top.as_pt(), (0, -1));
    assert_eq!(Origin::TopRight.as_pt(), (1, -1));
    assert_eq!(Origin::Left.as_pt(), (-1, 0));
    assert_eq!(Origin::Center.as_pt(), (0, 0));
    assert_eq!(Origin::Right.as_pt(), (1, 0));
    assert_eq!(Origin::BottomLeft.as_pt(), (-1, 1));
    assert_eq!(Origin::Bottom.as_pt(), (0, 1));
    assert_eq!(Origin::BottomRight.as_pt(), (1, 1));
}

#[test]
fn flips() {
    let c = ['a', 'b', 'c', 'd'];
    assert_eq!(flip_corners(Flip::NoFlip, c), ['a', 'b', 'c', 'd']);
    assert_eq!(flip_corners(Flip::X, c), ['b', 'a', 'd', 'c']);
    assert_eq!(flip_corners(Flip::Y, c), ['d', 'c', 'b', 'a']);
    assert_eq!(flip_corners(Flip::XY, c), ['c', 'd', 'a', 'b']);
    for f in [Flip::NoFlip, Flip::X, Flip::Y, Flip::XY].iter() {
        assert_eq!(flip_corners(*f, flip_corners(*f, c)), c);
    }
    assert_eq!(flip_corners(Flip::Y, flip_corners(Flip::X, c)), flip_corners(Flip::XY, c));
}

#[test]
fn bitmap_font_grid() {
    let f = BitmapFont::from_tex((), 64, 16, 8, 2, "ABCDEFGHIJ").unwrap();
    assert_eq!(f.width(), 8);
    assert_eq!(f.height(), 8);
    assert_eq!(f.cell('A'), Some((0, 0)));
    assert_eq!(f.cell('H'), Some((7, 0)));
    assert_eq!(f.cell('I'), Some((0, 1)));
    assert_eq!(f.cell('Z'), None);
    let g = BitmapFont::from_tex((), 4, 4, 2, 2, "abab").unwrap();
    assert_eq!(g.cell('a'), Some((0, 1)));
    assert_eq!(g.cell('b'), Some((1, 1)));
}

#[test]
fn bitmap_font_bad_grid() {
    match BitmapFont::from_tex((), 65, 16, 8, 2, "A") {
        Err(Error::Gfx(m)) => assert_eq!(m, "bitmap font texture size or column / row count not correct"),
        _ => panic!("65 does not divide into 8 columns"),
    }
    assert!(BitmapFont::from_tex((), 64, 15, 8, 2, "A").is_err());
    let neg = BitmapFont::from_tex((), -64, 16, 8, 2, "A").unwrap();
    assert_eq!(neg.width(), -8);
}

#[test]
fn state_stack() {
    let mut ctx: GfxCtx<u32, u8> = GfxCtx::new(0, 255);
    assert!(g::enabled(&Some(GfxCtx::<u32, u8>::new(0, 0))));
    assert!(!g::enabled::<u32, u8>(&None));
    g::color(&mut ctx, 10);
    g::line_width(&mut ctx, 3);
    g::push(&mut ctx);
    g::color(&mut ctx, 20);
    ctx.set_transform(7);
    assert_eq!(ctx.tint(), 20);
    assert_eq!(ctx.transform(), 7);
    g::pop(&mut ctx);
    assert_eq!(ctx.tint(), 10);
    assert_eq!(ctx.cur_line_width(), 3);
    assert_eq!(ctx.transform(), 0);
    g::push(&mut ctx);
    g::reset(&mut ctx);
    assert_eq!(ctx.tint(), 255);
    assert_eq!(ctx.cur_line_width(), 1);
    let s = State { transform: 1u32, tint: 2u8, line_width: 3 };
    assert_eq!(s.line_width, 3);
}

#[test]
fn stack_holds_sixty_four_states() {
    let mut ctx: GfxCtx<u32, u8> = GfxCtx::new(0, 0);
    for i in 0..g::MAX_STATE_STACK {
        g::color(&mut ctx, i as u8);
        g::push(&mut ctx);
    }
    for i in (0..g::MAX_STATE_STACK).rev() {
        g::pop(&mut ctx);
        assert_eq!(ctx.tint(), i as u8);
    }
}

#[test]
fn polygon_outline() {
    assert_eq!(g::poly(&[1, 2, 3]), vec![(1, 2), (2, 3), (3, 1)]);
    assert_eq!(g::poly(&[5]), vec![(5, 5)]);
    assert_eq!(g::poly::<u8>(&[]), vec![]);
}

#[test]
fn text_layout() {
    let ctx: GfxCtx<u32, u8> = GfxCtx::new(0, 0);
    let font = BitmapFont::from_tex((), 32, 16, 4, 2, " abcdefg").unwrap();
    assert_eq!(g::text(&ctx, &font, "ab c"), vec![(0, 1, 0), (1, 2, 0), (3, 3, 0)]);
    assert_eq!(g::text(&ctx, &font, "g"), vec![(0, 3, 1)]);
    assert_eq!(g::text(&ctx, &font, ""), vec![]);
}

#[test]
fn fan_and_gradient_indices() {
    assert_eq!(fan_indices(5), vec![0, 1, 2, 0, 2, 3, 0, 3, 4]);
    assert_eq!(fan_indices(3), vec![0, 1, 2]);
    assert_eq!(fan_indices(2), Vec::<u32>::new());
    assert_eq!(gradient_indices(3).unwrap(), vec![0, 1, 2, 1, 2, 3, 2, 3, 4, 3, 4, 5]);
    match gradient_indices(1) {
        Err(Error::Gfx(m)) => assert_eq!(m, "need at least 2 points to draw a gradient"),
        _ => panic!("one stop is not a gradient"),
    }
}

#[test]
fn cube_and_settings() {
    assert_eq!(cube(), Cube::new());
    let idx = CubeShape::indices();
    assert_eq!(idx.len(), 36);
    assert!(idx.iter().all(|i| *i < 8));
    assert_ne!(FillMode::Stretch, FillMode::Tiled);
    assert_ne!(PointMode::Rect, PointMode::Circle);
    assert_ne!(TextAlign::Left, TextAlign::Right);
    assert_ne!(NormalMode::Vertex, NormalMode::Surface);
}

#[test]
fn glyph_coverage_to_texels() {
    assert_eq!(dirty::gfx::alpha_to_rgba(&[0, 128, 255]), vec![255, 255, 255, 0, 255, 255, 255, 128, 255, 255, 255, 255]);
    assert_eq!(dirty::gfx::alpha_to_rgba(&[]), Vec::<u8>::new());
}

#[test]
fn quad_queue_switches_textures() {
    let mut q: g::QuadQueue<u8, &str> = g::QuadQueue::new();
    assert!(q.flush().is_none());
    assert!(q.draw(false, "a", [1, 2, 3, 4]).is_none());
    assert_eq!(q.current(), &Some("a"));
    assert!(q.draw(true, "a", [5, 6, 7, 8]).is_none());
    let d = q.draw(false, "b", [9, 9, 9, 9]).unwrap();
    assert_eq!(d.tex, "a");
    assert_eq!(d.verts, vec![1, 2, 3, 4, 5, 6, 7, 8]);
    let d = q.flush().unwrap();
    assert_eq!(d.tex, "b");
    assert_eq!(d.verts, vec![9, 9, 9, 9]);
    assert_eq!(q.current(), &None);
}

#[test]
fn quad_index_buffer() {
    let idx = g::quad_indices();
    assert_eq!(idx.len(), g::MAX_DRAWS * 6);
    assert_eq!(&idx[..12], &[0, 1, 3, 1, 2, 3, 4, 5, 7, 5, 6, 7]);
    assert_eq!(idx[idx.len() - 1], (g::MAX_DRAWS as u32 - 1) * 4 + 3);
    assert_eq!(g::MAX_VERTICES, 65536 * 8 * 4);
}

#[test]
fn bitmap_font_new_on_an_even_grid() {
    let f = BitmapFont::new((), 64, 16, 8, 2, "ABC");
    assert_eq!(f.width(), 8);
    assert_eq!(f.height(), 8);
    assert_eq!(f.cell('C'), Some((2, 0)));
}
