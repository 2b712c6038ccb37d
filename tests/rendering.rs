use fractal_gen::color::{apply_contrast, map_color};
use fractal_gen::escape::{escape_step, FractalType, Radius, Sample, Step};
use fractal_gen::pixels::PixelBuffer;
use fractal_gen::render::{fill, render, Config, ConfigError, RenderError};
use num::complex::Complex;

fn gray(h: u32, w: u32, contrast: u8) -> Config {
    Config::new(h, w, FractalType::Mandelbrot, contrast, false).unwrap()
}

fn palette() -> Vec<(u8, u8, u8)> {
    (0..=255u8).map(|i| (i, 255 - i, i / 2)).collect()
}

fn mandelbrot_byte(z: Complex<f64>) -> u8 {
    let mut v = Complex::new(0.0, 0.0);
    let mut n: u8 = 0;
    loop {
        v = v * v + z;
        let m = v.norm();
        let radius = if m < 2.0 {
            Radius::Inside
        } else if m == 2.0 {
            Radius::On
        } else {
            Radius::Outside
        };
        let s = Sample { radius, log_term: m.ln().log2() as u8 };
        match escape_step(FractalType::Mandelbrot, n, s) {
            Step::Done(b) => return b,
            Step::Continue(k) => n = k,
        }
    }
}

#[test]
fn contrast_saturates() {
    assert_eq!(apply_contrast(100, 2), 200);
    assert_eq!(apply_contrast(200, 2), 255);
    assert_eq!(apply_contrast(0, 9), 0);
    assert_eq!(apply_contrast(17, 1), 17);
}

#[test]
fn contrast_is_monotone() {
    for b in [0u8, 3, 60, 127, 200] {
        for c in 1u8..20 {
            assert!(apply_contrast(b, c) <= apply_contrast(b, c + 1));
        }
    }
}

#[test]
fn colors_map_through_the_palette() {
    let p = palette();
    assert_eq!(map_color(true, &p, 10), (10, 245, 5));
    assert_eq!(map_color(false, &p, 10), (10, 10, 10));
}

#[test]
fn config_errors() {
    assert_eq!(Config::new(0, 4, FractalType::Julia, 1, false), Err(ConfigError::ZeroHeight));
    assert_eq!(Config::new(4, 0, FractalType::Julia, 1, false), Err(ConfigError::ZeroWidth));
    assert_eq!(Config::new(4, 4, FractalType::Julia, 0, false), Err(ConfigError::ZeroContrast));
    assert_eq!(
        Config::new(u32::MAX, u32::MAX, FractalType::Julia, 1, false),
        Err(ConfigError::TooLarge)
    );
    let c = Config::new(3, 5, FractalType::Julia, 2, true).unwrap();
    assert_eq!((c.height, c.width, c.contrast, c.colors_enabled), (3, 5, 2, true));
}

#[test]
fn render_errors() {
    let c = gray(2, 2, 1);
    assert_eq!(render(c, &vec![0; 3], &vec![]).err(), Some(RenderError::SampleCount));
    let c = Config::new(2, 2, FractalType::Julia, 1, true).unwrap();
    assert_eq!(render(c, &vec![0; 4], &vec![(0, 0, 0); 10]).err(), Some(RenderError::PaletteSize));
    assert!(render(c, &vec![0; 4], &palette()).is_ok());
}

#[test]
fn render_grayscale_layout() {
    let c = gray(2, 3, 2);
    let raw = vec![1, 2, 3, 4, 5, 200];
    let img = render(c, &raw, &vec![]).unwrap();
    assert_eq!(
        img.to_raw(),
        vec![2, 2, 2, 4, 4, 4, 6, 6, 6, 8, 8, 8, 10, 10, 10, 255, 255, 255]
    );
}

#[test]
fn render_colored() {
    let c = Config::new(1, 2, FractalType::Julia, 3, true).unwrap();
    let img = render(c, &vec![1, 100], &palette()).unwrap();
    assert_eq!(img.to_raw(), vec![3, 252, 1, 255, 0, 127]);
}

#[test]
fn new_buffer_is_black() {
    let b = PixelBuffer::new(2, 2);
    assert_eq!(b.to_raw(), vec![0; 12]);
}

#[test]
fn put_pixel_sets_one_pixel() {
    let mut b = PixelBuffer::new(3, 2);
    b.put_pixel(1, 1, (9, 8, 7));
    let raw = b.to_raw();
    assert_eq!(&raw[12..15], &[9, 8, 7]);
    assert_eq!(raw.iter().map(|&v| v as u32).sum::<u32>(), 24);
}

#[test]
fn fill_overwrites_a_canary() {
    let c = gray(3, 3, 1);
    let mut b = PixelBuffer::new(3, 3);
    for y in 0..3 {
        for x in 0..3 {
            b.put_pixel(x, y, (1, 2, 3));
        }
    }
    let raw: Vec<u8> = (0..9).map(|i| i * 20).collect();
    let out = fill(b, c, &raw, &vec![]).to_raw();
    let expected: Vec<u8> = raw.iter().flat_map(|&v| [v, v, v]).collect();
    assert_eq!(out, expected);
}

#[test]
fn render_is_deterministic() {
    let c = Config::new(4, 5, FractalType::Julia, 2, true).unwrap();
    let raw: Vec<u8> = (0..20).map(|i| (i * 37 % 256) as u8).collect();
    let a = render(c, &raw, &palette()).unwrap().to_raw();
    let b = render(c, &raw, &palette()).unwrap().to_raw();
    assert_eq!(a, b);
}

#[test]
fn grayscale_channels_are_equal() {
    let c = gray(3, 4, 3);
    let raw: Vec<u8> = (0..12).map(|i| (i * 29) as u8).collect();
    let out = render(c, &raw, &vec![]).unwrap().to_raw();
    for px in out.chunks(3) {
        assert_eq!(px[0], px[1]);
        assert_eq!(px[1], px[2]);
    }
}

#[test]
fn mandelbrot_four_by_four() {
    let (h, w) = (4u32, 4u32);
    let scale = 1.0;
    let mut raw = Vec::new();
    for y in 0..h {
        let fy = y as f64 / h as f64 * (4.0 * scale) - 2.0 * scale;
        for x in 0..w {
            let fx = x as f64 / w as f64 * (4.0 * scale) - 2.0 * scale;
            raw.push(mandelbrot_byte(Complex::new(fx, fy)));
        }
    }
    let out = render(gray(h, w, 1), &raw, &vec![]).unwrap().to_raw();
    let at = |x: usize, y: usize| &out[3 * (y * 4 + x)..3 * (y * 4 + x) + 3];
    assert_eq!(at(2, 2), &[255, 255, 255]);
    assert_eq!(at(0, 0), &[1, 1, 1]);
}
