//! The frame renderer: one pass over every pixel of the image.
use vstd::prelude::*;
use crate::color::{PALETTE_SIZE, apply_contrast, color_of, contrast_monotonic, contrasted, map_color};
use crate::escape::FractalType;
use crate::pixels::{PixelBuffer, RgbTriple, buffer_dims, buffer_pixels, buffer_wf, flat_samples};

verus! {

/// The integer settings of one frame.
///
/// The real-valued settings (the scale of the plane window, the Julia
/// constant, the saturation and value of the hues) enter through the
/// escape bytes and the palette handed to `render`.
#[derive(Clone, Copy, Debug, PartialEq, Eq, Structural)]
pub struct Config {
    pub height: u32,
    pub width: u32,
    pub fractal_type: FractalType,
    /// Multiplier of each escape byte, saturating at 255.
    pub contrast: u8,
    /// Hue palette when set, grayscale otherwise.
    pub colors_enabled: bool,
}

/// Why a `Config` was refused.
#[derive(Clone, Copy, Debug, PartialEq, Eq, Structural)]
pub enum ConfigError {
    ZeroHeight,
    ZeroWidth,
    ZeroContrast,
    /// `3 * width * height` samples do not fit in memory.
    TooLarge,
}

/// Why `render` refused its inputs.
#[derive(Clone, Copy, Debug, PartialEq, Eq, Structural)]
pub enum RenderError {
    /// The escape bytes are not one per pixel.
    SampleCount,
    /// Colors are on and the palette does not hold one entry per byte.
    PaletteSize,
}

/// Positive dimensions and contrast, and a buffer that fits in memory.
pub open spec fn config_valid(height: u32, width: u32, contrast: u8) -> bool {
    &&& height > 0
    &&& width > 0
    &&& contrast > 0
    &&& 3 * width * height <= usize::MAX
}

impl Config {
    /// Positive dimensions and contrast, and a buffer that fits in memory.
    pub open spec fn wf(&self) -> bool {
        config_valid(self.height, self.width, self.contrast)
    }

    /// A checked configuration.
    pub fn new(
        height: u32,
        width: u32,
        fractal_type: FractalType,
        contrast: u8,
        colors_enabled: bool,
    ) -> (r: Result<Config, ConfigError>)
        ensures
            height == 0 <==> r == Err::<Config, ConfigError>(ConfigError::ZeroHeight),
            height > 0 && width == 0 <==> r == Err::<Config, ConfigError>(ConfigError::ZeroWidth),
            height > 0 && width > 0 && contrast == 0 <==> r == Err::<Config, ConfigError>(
                ConfigError::ZeroContrast,
            ),
            height > 0 && width > 0 && contrast > 0 && 3 * width * height > usize::MAX <==> r
                == Err::<Config, ConfigError>(ConfigError::TooLarge),
            r is Ok <==> config_valid(height, width, contrast),
            r is Ok ==> r->Ok_0 == (Config { height, width, fractal_type, contrast, colors_enabled }),
            r is Ok ==> r->Ok_0.wf(),
    {
        if height == 0 {
            return Err(ConfigError::ZeroHeight);
        }
        if width == 0 {
            return Err(ConfigError::ZeroWidth);
        }
        if contrast == 0 {
            return Err(ConfigError::ZeroContrast);
        }
        proof {
            lemma_area_bounds(width, height);
        }
        let pixels: u64 = width as u64 * height as u64;
        if pixels > (usize::MAX / 3) as u64 {
            return Err(ConfigError::TooLarge);
        }
        Ok(Config { height, width, fractal_type, contrast, colors_enabled })
    }
}

/// The color of the pixel whose raw escape byte is `raw`.
pub open spec fn pixel_of(config: Config, palette: Seq<RgbTriple>, raw: u8) -> RgbTriple {
    color_of(config.colors_enabled, palette, contrasted(raw as int, config.contrast as int) as u8)
}

/// `b` is the image of `config` for the escape bytes `raw`, one per pixel in
/// row-major order.
pub open spec fn rendered(
    config: Config,
    raw: Seq<u8>,
    palette: Seq<RgbTriple>,
    b: PixelBuffer,
) -> bool {
    &&& buffer_dims(b) == (config.width, config.height)
    &&& buffer_pixels(b).len() == config.width * config.height
    &&& forall|i: int|
        0 <= i < config.width * config.height ==> #[trigger] buffer_pixels(b)[i] == pixel_of(
            config,
            palette,
            raw[i],
        )
}

/// Writes the color of brightness `z_bright` at column `x` of row `y`.
pub fn draw_pixel(
    a: &mut PixelBuffer,
    x: u32,
    y: u32,
    z_bright: u8,
    colors_enabled: bool,
    palette: &Vec<RgbTriple>,
)
    requires
        x < buffer_dims(*old(a)).0,
        y < buffer_dims(*old(a)).1,
        colors_enabled ==> palette@.len() == PALETTE_SIZE,
    ensures
        buffer_dims(*final(a)) == buffer_dims(*old(a)),
        buffer_pixels(*final(a)) == buffer_pixels(*old(a)).update(
            y * buffer_dims(*old(a)).0 + x,
            color_of(colors_enabled, palette@, z_bright),
        ),
{
    let px = map_color(colors_enabled, palette, z_bright);
    a.put_pixel(x, y, px);
}

proof fn lemma_area_bounds(w: u32, h: u32)
    ensures
        0 <= w * h <= 0xffff_ffff * 0xffff_ffff,
        w * h == h * w,
        w * h > usize::MAX / 3 <==> 3 * w * h > usize::MAX,
        3 * w * h == 3 * (w * h),
{
    assert(0 <= w * h <= 0xffff_ffff * 0xffff_ffff) by (nonlinear_arith)
        requires
            w <= 0xffff_ffff,
            h <= 0xffff_ffff,
    ;
    assert(w * h == h * w) by (nonlinear_arith);
    assert(3 * w * h == 3 * (w * h)) by (nonlinear_arith);
}

proof fn lemma_row_index(x: int, y: int, w: int, h: int)
    requires
        0 <= x < w,
        0 <= y < h,
    ensures
        0 <= y * w + x < h * w,
        y * w + x < (y + 1) * w,
        (y + 1) * w <= h * w,
        (y + 1) * w == y * w + w,
        h * w == w * h,
{
    assert((y + 1) * w == y * w + w) by (nonlinear_arith);
    assert(h * w == w * h) by (nonlinear_arith);
    assert(y * w + x < (y + 1) * w) by (nonlinear_arith)
        requires
            x < w,
    ;
    assert((y + 1) * w <= h * w) by (nonlinear_arith)
        requires
            y + 1 <= h,
            0 <= w,
    ;
    assert(0 <= y * w) by (nonlinear_arith)
        requires
            0 <= y,
            0 <= w,
    ;
}

/// Overwrites every pixel of `a`, whatever it held, with the color of the
/// pixel's escape byte.
pub fn fill(mut a: PixelBuffer, config: Config, raw: &Vec<u8>, palette: &Vec<RgbTriple>) -> (r:
    PixelBuffer)
    requires
        config.wf(),
        buffer_dims(a) == (config.width, config.height),
        buffer_wf(a),
        raw@.len() == config.width * config.height,
        config.colors_enabled ==> palette@.len() == PALETTE_SIZE,
    ensures
        rendered(config, raw@, palette@, r),
{
    let w = config.width;
    let h = config.height;
    proof {
        lemma_area_bounds(w, h);
    }
    let mut y: u32 = 0;
    while y < h
        invariant
            0 <= y <= h,
            w == config.width,
            h == config.height,
            config.wf(),
            raw@.len() == w * h,
            config.colors_enabled ==> palette@.len() == PALETTE_SIZE,
            buffer_dims(a) == (w, h),
            buffer_pixels(a).len() == w * h,
            y * w <= w * h,
            forall|j: int|
                0 <= j < y * w ==> #[trigger] buffer_pixels(a)[j] == pixel_of(
                    config,
                    palette@,
                    raw@[j],
                ),
        decreases h - y,
    {
        let mut x: u32 = 0;
        while x < w
            invariant
                0 <= x <= w,
                0 <= y < h,
                w == config.width,
                h == config.height,
                config.wf(),
                raw@.len() == w * h,
                config.colors_enabled ==> palette@.len() == PALETTE_SIZE,
                buffer_dims(a) == (w, h),
                buffer_pixels(a).len() == w * h,
                forall|j: int|
                    0 <= j < y * w + x ==> #[trigger] buffer_pixels(a)[j] == pixel_of(
                        config,
                        palette@,
                        raw@[j],
                    ),
            decreases w - x,
        {
            proof {
                lemma_row_index(x as int, y as int, w as int, h as int);
                lemma_area_bounds(w, h);
                assert(y * w + x < usize::MAX);
                assert(y * w <= usize::MAX);
            }
            let i: usize = y as usize * w as usize + x as usize;
            let z_bright = apply_contrast(raw[i], config.contrast);
            draw_pixel(&mut a, x, y, z_bright, config.colors_enabled, palette);
            x = x + 1;
        }
        proof {
            lemma_row_index((w - 1) as int, y as int, w as int, h as int);
        }
        y = y + 1;
    }
    a
}

/// The image of `config` for the escape bytes `raw` (one per pixel, row by
/// row) and the hue palette `palette`, in a new buffer.
pub fn render(config: Config, raw: &Vec<u8>, palette: &Vec<RgbTriple>) -> (r: Result<
    PixelBuffer,
    RenderError,
>)
    requires
        config.wf(),
    ensures
        raw@.len() != config.width * config.height <==> r == Err::<PixelBuffer, RenderError>(
            RenderError::SampleCount,
        ),
        raw@.len() == config.width * config.height && config.colors_enabled && palette@.len()
            != PALETTE_SIZE <==> r == Err::<PixelBuffer, RenderError>(RenderError::PaletteSize),
        r is Ok <==> raw@.len() == config.width * config.height && (config.colors_enabled
            ==> palette@.len() == PALETTE_SIZE),
        r is Ok ==> rendered(config, raw@, palette@, r->Ok_0),
{
    proof {
        lemma_area_bounds(config.width, config.height);
    }
    if raw.len() as u64 != config.width as u64 * config.height as u64 {
        return Err(RenderError::SampleCount);
    }
    if config.colors_enabled && palette.len() != PALETTE_SIZE {
        return Err(RenderError::PaletteSize);
    }
    let a = PixelBuffer::new(config.width, config.height);
    Ok(fill(a, config, raw, palette))
}

/// Rendering is deterministic: two images of the same configuration, escape
/// bytes and palette hold the same samples.
pub proof fn render_deterministic(
    config: Config,
    raw: Seq<u8>,
    palette: Seq<RgbTriple>,
    b1: PixelBuffer,
    b2: PixelBuffer,
)
    requires
        rendered(config, raw, palette, b1),
        rendered(config, raw, palette, b2),
    ensures
        buffer_dims(b1) == buffer_dims(b2),
        buffer_pixels(b1) == buffer_pixels(b2),
        flat_samples(buffer_pixels(b1)) == flat_samples(buffer_pixels(b2)),
{
    assert(buffer_pixels(b1) =~= buffer_pixels(b2));
}

/// In grayscale every pixel has equal red, green and blue channels.
pub proof fn grayscale_channels_equal(
    config: Config,
    raw: Seq<u8>,
    palette: Seq<RgbTriple>,
    b: PixelBuffer,
    i: int,
)
    requires
        rendered(config, raw, palette, b),
        !config.colors_enabled,
        0 <= i < buffer_pixels(b).len(),
    ensures
        buffer_pixels(b)[i].0 == buffer_pixels(b)[i].1,
        buffer_pixels(b)[i].1 == buffer_pixels(b)[i].2,
{
}

/// In grayscale, raising the contrast never darkens a pixel.
pub proof fn contrast_never_darkens(
    config1: Config,
    config2: Config,
    raw: Seq<u8>,
    palette: Seq<RgbTriple>,
    b1: PixelBuffer,
    b2: PixelBuffer,
    i: int,
)
    requires
        config2 == (Config { contrast: config2.contrast, ..config1 }),
        config1.contrast <= config2.contrast,
        !config1.colors_enabled,
        rendered(config1, raw, palette, b1),
        rendered(config2, raw, palette, b2),
        0 <= i < buffer_pixels(b1).len(),
    ensures
        buffer_pixels(b1)[i].0 <= buffer_pixels(b2)[i].0,
{
    contrast_monotonic(raw[i], config1.contrast, config2.contrast);
}

} // verus!
