use macrdp::yuv444::{bgra_to_yuv444, yuv444_split_to_yuv420, Yuv420Frame};

/// Create a simple BGRA buffer with a known color
fn make_bgra(width: usize, height: usize, b: u8, g: u8, r: u8) -> Vec<u8> {
    let mut buf = vec![0u8; width * height * 4];
    for i in 0..width * height {
        buf[i * 4] = b;
        buf[i * 4 + 1] = g;
        buf[i * 4 + 2] = r;
        buf[i * 4 + 3] = 255;
    }
    buf
}

/// Reference BT.601 full-range conversion for a single pixel
fn ref_bt601(r: u8, g: u8, b: u8) -> (u8, u8, u8) {
    let ri = r as i32;
    let gi = g as i32;
    let bi = b as i32;
    let y = ((77 * ri + 150 * gi + 29 * bi) >> 8).clamp(0, 255) as u8;
    let u = (((-43 * ri - 85 * gi + 128 * bi) >> 8) + 128).clamp(0, 255) as u8;
    let v = (((128 * ri - 107 * gi - 21 * bi) >> 8) + 128).clamp(0, 255) as u8;
    (y, u, v)
}

#[test]
fn test_bgra_to_yuv444_uniform_color() {
    let (w, h) = (16u32, 16u32);
    let bgra = make_bgra(w as usize, h as usize, 50, 100, 200);
    let size = (w * h) as usize;
    let mut y444 = vec![0u8; size];
    let mut u444 = vec![0u8; size];
    let mut v444 = vec![0u8; size];

    bgra_to_yuv444(&bgra, w, h, (w * 4) as usize, &mut y444, &mut u444, &mut v444);

    let (exp_y, exp_u, exp_v) = ref_bt601(200, 100, 50);
    for i in 0..size {
        assert_eq!(y444[i], exp_y, "Y mismatch at pixel {i}");
        assert_eq!(u444[i], exp_u, "U mismatch at pixel {i}");
        assert_eq!(v444[i], exp_v, "V mismatch at pixel {i}");
    }
}

#[test]
fn test_bgra_to_yuv444_stride() {
    let (w, h) = (4u32, 4u32);
    let stride = (w * 4 + 16) as usize;
    let mut bgra = vec![0u8; stride * h as usize];
    for row in 0..h as usize {
        for col in 0..w as usize {
            let px = row * stride + col * 4;
            bgra[px] = 30;
            bgra[px + 1] = 60;
            bgra[px + 2] = 90;
            bgra[px + 3] = 255;
        }
    }

    let size = (w * h) as usize;
    let mut y444 = vec![0u8; size];
    let mut u444 = vec![0u8; size];
    let mut v444 = vec![0u8; size];

    bgra_to_yuv444(&bgra, w, h, stride, &mut y444, &mut u444, &mut v444);

    let (exp_y, exp_u, exp_v) = ref_bt601(90, 60, 30);
    for i in 0..size {
        assert_eq!(y444[i], exp_y, "Y mismatch at pixel {i}");
        assert_eq!(u444[i], exp_u, "U mismatch at pixel {i}");
        assert_eq!(v444[i], exp_v, "V mismatch at pixel {i}");
    }
}

#[test]
fn test_split_b1_identity_copy() {
    let (w, h) = (16u32, 16u32);
    let size = (w * h) as usize;

    let y444: Vec<u8> = (0..size).map(|i| (i % 256) as u8).collect();
    let u444 = vec![128u8; size];
    let v444 = vec![128u8; size];

    let mut main_view = Yuv420Frame::new(w, h);
    let mut aux_view = Yuv420Frame::new(w, h);

    yuv444_split_to_yuv420(&y444, &u444, &v444, w, h, &mut main_view, &mut aux_view);

    assert_eq!(&main_view.y[..size], &y444[..size], "B1: main Y must be identity copy of Y444");
}

#[test]
fn test_split_b2_b3_average() {
    let (w, h) = (4u32, 4u32);
    let size = (w * h) as usize;

    let y444 = vec![128u8; size];

    let mut u444 = vec![0u8; size];
    u444[0] = 10; u444[1] = 20; u444[2] = 100; u444[3] = 110;
    u444[4] = 30; u444[5] = 40; u444[6] = 120; u444[7] = 130;
    u444[8] = 50; u444[9] = 60; u444[10] = 200; u444[11] = 210;
    u444[12] = 70; u444[13] = 80; u444[14] = 220; u444[15] = 230;

    let v444: Vec<u8> = u444.iter().map(|&x| x.saturating_add(5)).collect();

    let mut main_view = Yuv420Frame::new(w, h);
    let mut aux_view = Yuv420Frame::new(w, h);

    yuv444_split_to_yuv420(&y444, &u444, &v444, w, h, &mut main_view, &mut aux_view);

    assert_eq!(main_view.u[0], 25, "B2: U avg of block (0,0)");
    assert_eq!(main_view.u[1], 115, "B2: U avg of block (0,1)");
    assert_eq!(main_view.u[2], 65, "B2: U avg of block (1,0)");
    assert_eq!(main_view.u[3], 215, "B2: U avg of block (1,1)");

    assert_eq!(main_view.v[0], 30, "B3: V avg of block (0,0)");
    assert_eq!(main_view.v[1], 120, "B3: V avg of block (0,1)");
    assert_eq!(main_view.v[2], 70, "B3: V avg of block (1,0)");
    assert_eq!(main_view.v[3], 220, "B3: V avg of block (1,1)");
}

#[test]
fn test_split_b4_b5_interleaving() {
    let (w, h) = (32u32, 32u32);
    let size = (w * h) as usize;
    let wi = w as usize;

    let y444 = vec![0u8; size];

    let mut u444 = vec![0u8; size];
    let mut v444 = vec![0u8; size];
    for row in 0..h as usize {
        for col in 0..wi {
            u444[row * wi + col] = (row + 1) as u8;
            v444[row * wi + col] = (row + 1 + 100) as u8;
        }
    }

    let mut main_view = Yuv420Frame::new(w, h);
    let mut aux_view = Yuv420Frame::new(w, h);

    yuv444_split_to_yuv420(&y444, &u444, &v444, w, h, &mut main_view, &mut aux_view);

    let test_cases: Vec<(usize, usize, usize)> = vec![
        (1, 0, 8),
        (3, 1, 9),
        (5, 2, 10),
        (7, 3, 11),
        (9, 4, 12),
        (11, 5, 13),
        (13, 6, 14),
        (15, 7, 15),
        (17, 16, 24),
        (19, 17, 25),
        (21, 18, 26),
        (23, 19, 27),
        (25, 20, 28),
        (27, 21, 29),
        (29, 22, 30),
        (31, 23, 31),
    ];

    for (src_row, u_dst_row, v_dst_row) in test_cases {
        let expected_u_val = (src_row + 1) as u8;
        let expected_v_val = (src_row + 1 + 100) as u8;

        assert_eq!(
            aux_view.y[u_dst_row * wi], expected_u_val,
            "B4: aux.y row {u_dst_row} should contain U444 row {src_row} (val={expected_u_val})"
        );
        assert_eq!(
            aux_view.y[v_dst_row * wi], expected_v_val,
            "B5: aux.y row {v_dst_row} should contain V444 row {src_row} (val={expected_v_val})"
        );
    }
}

#[test]
fn test_split_b6_b7_odd_columns() {
    let (w, h) = (8u32, 8u32);
    let size = (w * h) as usize;
    let wi = w as usize;

    let y444 = vec![128u8; size];

    let mut u444 = vec![0u8; size];
    let mut v444 = vec![0u8; size];
    for row in 0..h as usize {
        for col in 0..wi {
            u444[row * wi + col] = (col * 10 + row) as u8;
            v444[row * wi + col] = (col * 10 + row + 50) as u8;
        }
    }

    let mut main_view = Yuv420Frame::new(w, h);
    let mut aux_view = Yuv420Frame::new(w, h);

    yuv444_split_to_yuv420(&y444, &u444, &v444, w, h, &mut main_view, &mut aux_view);

    let half_w = wi / 2;
    let half_h = (h / 2) as usize;

    for r in 0..half_h {
        let src_row = 2 * r;
        for c in 0..half_w {
            let src_col = 2 * c + 1;
            let expected_u = (src_col * 10 + src_row) as u8;
            let expected_v = (src_col * 10 + src_row + 50) as u8;

            assert_eq!(
                aux_view.u[r * half_w + c], expected_u,
                "B6: aux.u[{r}][{c}] should be u444[{src_row}][{src_col}] = {expected_u}"
            );
            assert_eq!(
                aux_view.v[r * half_w + c], expected_v,
                "B7: aux.v[{r}][{c}] should be v444[{src_row}][{src_col}] = {expected_v}"
            );
        }
    }
}

#[test]
fn test_yuv420_frame_ensure_size() {
    let mut frame = Yuv420Frame::new(8, 8);
    assert_eq!(frame.y.len(), 64);
    assert_eq!(frame.u.len(), 16);

    frame.ensure_size(16, 16);
    assert_eq!(frame.y.len(), 256);
    assert_eq!(frame.u.len(), 64);
    assert_eq!(frame.v.len(), 64);
    assert_eq!(frame.width, 16);
    assert_eq!(frame.height, 16);

    assert!(frame.y.iter().all(|&v| v == 0), "Y should be zeroed after ensure_size");
    assert!(frame.u.iter().all(|&v| v == 128), "U should be 128 after ensure_size");
    assert!(frame.v.iter().all(|&v| v == 128), "V should be 128 after ensure_size");
}

#[test]
fn test_roundtrip_uniform_color() {
    let (w, h) = (16u32, 16u32);
    let bgra = make_bgra(w as usize, h as usize, 80, 160, 240);
    let size = (w * h) as usize;

    let mut y444 = vec![0u8; size];
    let mut u444 = vec![0u8; size];
    let mut v444 = vec![0u8; size];
    bgra_to_yuv444(&bgra, w, h, (w * 4) as usize, &mut y444, &mut u444, &mut v444);

    let mut main_view = Yuv420Frame::new(w, h);
    let mut aux_view = Yuv420Frame::new(w, h);
    yuv444_split_to_yuv420(&y444, &u444, &v444, w, h, &mut main_view, &mut aux_view);

    let (exp_y, exp_u, exp_v) = ref_bt601(240, 160, 80);

    assert!(main_view.y.iter().all(|&v| v == exp_y), "uniform B1 check");
    assert!(main_view.u.iter().all(|&v| v == exp_u), "uniform B2 check");
    assert!(main_view.v.iter().all(|&v| v == exp_v), "uniform B3 check");
    assert!(aux_view.u.iter().all(|&v| v == exp_u), "uniform B6 check");
    assert!(aux_view.v.iter().all(|&v| v == exp_v), "uniform B7 check");
}

#[test]
fn split_keeps_frame_dimensions_and_fills_unused_aux_rows_with_zero() {
    // 2x2 frame: one odd source row, so aux luma rows 0 and 8 would be
    // written if present; with height 2 only row 0 (U of source row 1) and
    // no V row exist in the 2-row aux luma plane.
    let (w, h) = (2u32, 2u32);
    let y444 = vec![1u8, 2, 3, 4];
    let u444 = vec![10u8, 20, 30, 40];
    let v444 = vec![50u8, 60, 70, 80];
    let mut main_view = Yuv420Frame::new(w, h);
    let mut aux_view = Yuv420Frame::new(w, h);
    yuv444_split_to_yuv420(&y444, &u444, &v444, w, h, &mut main_view, &mut aux_view);
    assert_eq!(main_view.y, vec![1, 2, 3, 4]);
    assert_eq!(main_view.u, vec![25]);
    assert_eq!(main_view.v, vec![65]);
    assert_eq!(aux_view.y[0..2], [30, 40]);
    assert_eq!(aux_view.u, vec![20]);
    assert_eq!(aux_view.v, vec![60]);
    assert_eq!(main_view.width, 2);
    assert_eq!(aux_view.height, 2);
}

#[test]
fn bgra_to_yuv444_black_and_white() {
    // White: Y 255 (clamped), U and V 128; black: Y 0, U and V 128.
    let bgra = vec![255u8, 255, 255, 255, 0, 0, 0, 255];
    let mut y = vec![7u8; 2];
    let mut u = vec![7u8; 2];
    let mut v = vec![7u8; 2];
    bgra_to_yuv444(&bgra, 2, 1, 8, &mut y, &mut u, &mut v);
    assert_eq!(y, vec![255, 0]);
    assert_eq!(u, vec![128, 128]);
    assert_eq!(v, vec![128, 128]);
}

#[test]
fn gray_pixels_have_neutral_chroma() {
    for g in [0u8, 1, 77, 128, 200, 255] {
        let bgra = make_bgra(2, 2, g, g, g);
        let mut y = vec![0u8; 4];
        let mut u = vec![0u8; 4];
        let mut v = vec![0u8; 4];
        bgra_to_yuv444(&bgra, 2, 2, 8, &mut y, &mut u, &mut v);
        assert!(y.iter().all(|&x| x == g));
        assert!(u.iter().all(|&x| x == 128));
        assert!(v.iter().all(|&x| x == 128));
    }
}
