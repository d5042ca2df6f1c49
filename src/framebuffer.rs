//! The framebuffer: a colour grid and a depth grid with a less-than depth
//! test.
use vstd::prelude::*;
use crate::fixed::ONE;
use crate::vector::Vec3;

verus! {

/// An 8-bit RGBA colour.
#[derive(Clone, Copy, Debug, PartialEq, Eq, Structural)]
pub struct Color {
    pub r: u8,
    pub g: u8,
    pub b: u8,
    pub a: u8,
}

impl Color {
    pub fn new(r: u8, g: u8, b: u8, a: u8) -> (c: Color)
        ensures
            c == (Color { r, g, b, a }),
    {
        Color { r, g, b, a }
    }
}

/// The depth of a cleared cell: farther than any fragment.
pub const FAR_DEPTH: i64 = i64::MAX;

/// A fixed-point channel clamped to `[0, 1]` and scaled to `0..=255`.
pub open spec fn channel(c: int) -> u8 {
    let k = if c < 0 { 0 } else if c > ONE { ONE as int } else { c };
    (k * 255 / (ONE as int)) as u8
}

/// The opaque 8-bit colour of a fixed-point colour.
pub open spec fn to_color(v: Vec3) -> Color {
    Color { r: channel(v.x as int), g: channel(v.y as int), b: channel(v.z as int), a: 255 }
}

/// What a framebuffer holds.
pub struct FrameModel {
    pub width: int,
    pub height: int,
    pub colors: Seq<Color>,
    pub depths: Seq<int>,
    pub background: Color,
    pub current: Color,
}

pub open spec fn in_bounds(m: FrameModel, x: int, y: int) -> bool {
    0 <= x < m.width && 0 <= y < m.height
}

pub open spec fn cell(m: FrameModel, x: int, y: int) -> int {
    y * m.width + x
}

/// The model after a depth-tested write of `color` at `(x, y)`: a cell out
/// of bounds, or whose stored depth is not greater, is left alone.
pub open spec fn plot(m: FrameModel, x: int, y: int, depth: int, color: Color) -> FrameModel {
    if in_bounds(m, x, y) && depth < m.depths[cell(m, x, y)] {
        FrameModel {
            colors: m.colors.update(cell(m, x, y), color),
            depths: m.depths.update(cell(m, x, y), depth),
            ..m
        }
    } else {
        m
    }
}

/// The model with every colour the background and every depth the farthest.
pub open spec fn cleared(m: FrameModel) -> FrameModel {
    FrameModel {
        colors: Seq::new(m.colors.len(), |i: int| m.background),
        depths: Seq::new(m.depths.len(), |i: int| FAR_DEPTH as int),
        ..m
    }
}

pub struct Framebuffer {
    width: i32,
    height: i32,
    color_buffer: Vec<Color>,
    depth_buffer: Vec<i64>,
    background_color: Color,
    current_color: Color,
}

impl View for Framebuffer {
    type V = FrameModel;

    closed spec fn view(&self) -> FrameModel {
        FrameModel {
            width: self.width as int,
            height: self.height as int,
            colors: self.color_buffer@,
            depths: self.depth_buffer@.map_values(|d: i64| d as int),
            background: self.background_color,
            current: self.current_color,
        }
    }
}

proof fn lemma_cell_in_grid(x: int, y: int, w: int, h: int)
    requires
        0 <= x < w,
        0 <= y < h,
    ensures
        0 <= y * w + x < w * h,
{
    assert(0 <= y * w + x < w * h) by (nonlinear_arith)
        requires
            0 <= x < w,
            0 <= y < h,
    ;
}

/// The cell of an in-bounds pixel lies in the grids.
pub proof fn lemma_cell_index(m: FrameModel, x: int, y: int)
    requires
        in_bounds(m, x, y),
    ensures
        0 <= cell(m, x, y) < m.width * m.height,
{
    lemma_cell_in_grid(x, y, m.width, m.height);
}

impl Framebuffer {
    /// Both grids have one cell per pixel.
    pub open spec fn wf(&self) -> bool {
        &&& self@.width >= 0
        &&& self@.height >= 0
        &&& self@.colors.len() == self@.width * self@.height
        &&& self@.depths.len() == self@.width * self@.height
    }

    fn index_of(&self, x: i32, y: i32) -> (i: usize)
        requires
            self.wf(),
            in_bounds(self@, x as int, y as int),
        ensures
            i == cell(self@, x as int, y as int),
            i < self.color_buffer@.len(),
            i < self.depth_buffer@.len(),
    {
        let n = self.color_buffer.len();
        proof {
            lemma_cell_in_grid(x as int, y as int, self.width as int, self.height as int);
            assert(self.color_buffer@.len() == self@.colors.len());
        }
        let (yu, wu, xu) = (y as usize, self.width as usize, x as usize);
        assert(yu * wu + xu < n);
        assert(yu * wu <= n);
        yu * wu + xu
    }

    /// A black framebuffer of the given size with every depth the farthest.
    pub fn new(width: i32, height: i32) -> (fb: Framebuffer)
        requires
            width >= 0,
            height >= 0,
            width * height <= usize::MAX,
        ensures
            fb.wf(),
            fb@.width == width,
            fb@.height == height,
            fb@.background == (Color { r: 0, g: 0, b: 0, a: 255 }),
            fb@.current == (Color { r: 255, g: 255, b: 255, a: 255 }),
            fb@.colors == Seq::new((width * height) as nat, |i: int| fb@.background),
            fb@.depths == Seq::new((width * height) as nat, |i: int| FAR_DEPTH as int),
    {
        let background_color = Color { r: 0, g: 0, b: 0, a: 255 };
        let n = (width as usize) * (height as usize);
        let mut color_buffer: Vec<Color> = Vec::new();
        let mut depth_buffer: Vec<i64> = Vec::new();
        let mut i: usize = 0;
        while i < n
            invariant
                i <= n,
                color_buffer@ == Seq::new(i as nat, |k: int| background_color),
                depth_buffer@ == Seq::new(i as nat, |k: int| FAR_DEPTH),
            decreases n - i,
        {
            color_buffer.push(background_color);
            depth_buffer.push(FAR_DEPTH);
            i = i + 1;
            assert(color_buffer@ =~= Seq::new(i as nat, |k: int| background_color));
            assert(depth_buffer@ =~= Seq::new(i as nat, |k: int| FAR_DEPTH));
        }
        let fb = Framebuffer {
            width,
            height,
            color_buffer,
            depth_buffer,
            background_color,
            current_color: Color { r: 255, g: 255, b: 255, a: 255 },
        };
        assert(fb@.depths =~= Seq::new((width * height) as nat, |i: int| FAR_DEPTH as int));
        assert(fb@.colors =~= Seq::new((width * height) as nat, |i: int| fb@.background));
        fb
    }

    pub fn width(&self) -> (w: i32)
        ensures
            w == self@.width,
    {
        self.width
    }

    pub fn height(&self) -> (h: i32)
        ensures
            h == self@.height,
    {
        self.height
    }

    /// The colour grid, row by row.
    pub fn color_buffer(&self) -> (c: &Vec<Color>)
        ensures
            c@ == self@.colors,
    {
        &self.color_buffer
    }

    /// Resets every colour to the background and every depth to the farthest.
    #[verifier::spinoff_prover]
    pub fn clear(&mut self)
        requires
            old(self).wf(),
        ensures
            final(self).wf(),
            final(self)@ == cleared(old(self)@),
    {
        let n = self.color_buffer.len();
        let bg = self.background_color;
        let mut i: usize = 0;
        while i < n
            invariant
                self.wf(),
                n == self.color_buffer@.len(),
                self.width == old(self).width,
                self.height == old(self).height,
                self.background_color == old(self).background_color,
                self.current_color == old(self).current_color,
                bg == self.background_color,
                i <= n,
                forall|k: int| 0 <= k < i ==> self.color_buffer@[k] == bg,
                forall|k: int| 0 <= k < i ==> self.depth_buffer@[k] == FAR_DEPTH,
            decreases n - i,
        {
            self.color_buffer[i] = bg;
            self.depth_buffer[i] = FAR_DEPTH;
            i = i + 1;
        }
        assert(self@.colors =~= cleared(old(self)@).colors);
        assert(self@.depths =~= cleared(old(self)@).depths);
    }

    /// Writes the current colour at `(x, y)`, without a depth test; a pixel
    /// out of bounds is ignored.
    pub fn set_pixel(&mut self, x: i32, y: i32)
        requires
            old(self).wf(),
        ensures
            final(self).wf(),
            final(self)@ == (if in_bounds(old(self)@, x as int, y as int) {
                FrameModel {
                    colors: old(self)@.colors.update(cell(old(self)@, x as int, y as int), old(self)@.current),
                    ..old(self)@
                }
            } else {
                old(self)@
            }),
    {
        if x >= 0 && x < self.width && y >= 0 && y < self.height {
            let index = self.index_of(x, y);
            let c = self.current_color;
            self.color_buffer[index] = c;
        }
    }

    /// Depth-tested write: where `(x, y)` is in bounds and `depth` is strictly
    /// less than the stored depth, stores `depth` and the colour clamped to
    /// `[0, 1]` and scaled to 8 bits; otherwise nothing changes.
    #[verifier::spinoff_prover]
    pub fn point(&mut self, x: i32, y: i32, depth: i32, color: Vec3)
        requires
            old(self).wf(),
        ensures
            final(self).wf(),
            final(self)@ == plot(old(self)@, x as int, y as int, depth as int, to_color(color)),
    {
        if x >= 0 && x < self.width && y >= 0 && y < self.height {
            let index = self.index_of(x, y);
            if (depth as i64) < self.depth_buffer[index] {
                self.depth_buffer[index] = depth as i64;
                let pixel_color = Color {
                    r: channel_of(color.x),
                    g: channel_of(color.y),
                    b: channel_of(color.z),
                    a: 255,
                };
                self.color_buffer[index] = pixel_color;
                assert(self@.depths =~= old(self)@.depths.update(index as int, depth as int));
            }
        }
    }

    /// The colour at `(x, y)`, or `None` out of bounds.
    pub fn get_pixel_color(&self, x: i32, y: i32) -> (c: Option<Color>)
        requires
            self.wf(),
        ensures
            c == (if in_bounds(self@, x as int, y as int) {
                Some(self@.colors[cell(self@, x as int, y as int)])
            } else {
                None::<Color>
            }),
    {
        if x >= 0 && x < self.width && y >= 0 && y < self.height {
            Some(self.color_buffer[self.index_of(x, y)])
        } else {
            None
        }
    }

    /// The depth at `(x, y)`, or `None` out of bounds.
    pub fn get_pixel_depth(&self, x: i32, y: i32) -> (d: Option<i64>)
        requires
            self.wf(),
        ensures
            d.is_some() == in_bounds(self@, x as int, y as int),
            in_bounds(self@, x as int, y as int) ==> d.unwrap() == self@.depths[cell(self@, x as int, y as int)],
    {
        if x >= 0 && x < self.width && y >= 0 && y < self.height {
            Some(self.depth_buffer[self.index_of(x, y)])
        } else {
            None
        }
    }

    pub fn set_background_color(&mut self, color: Color)
        ensures
            final(self)@ == (FrameModel { background: color, ..old(self)@ }),
            final(self).wf() == old(self).wf(),
    {
        self.background_color = color;
    }

    /// Sets the colour that `set_pixel` writes.
    pub fn set_current_color(&mut self, color: Color)
        ensures
            final(self)@ == (FrameModel { current: color, ..old(self)@ }),
            final(self).wf() == old(self).wf(),
    {
        self.current_color = color;
    }
}

/// 8-bit value of a fixed-point channel clamped to `[0, 1]`.
pub fn channel_of(c: i32) -> (r: u8)
    ensures
        r == channel(c as int),
{
    let k: i64 = if c < 0 {
        0
    } else if c > ONE {
        ONE as i64
    } else {
        c as i64
    };
    proof {
        assert(0 <= k * 255 / 10000 <= 255) by (nonlinear_arith)
            requires
                0 <= k <= 10000,
        ;
    }
    ((k * 255) / (ONE as i64)) as u8
}

/// Writing the same fragment twice leaves the framebuffer as the first write
/// left it.
pub proof fn lemma_point_idempotent(m: FrameModel, x: int, y: int, depth: int, color: Color)
    requires
        m.colors.len() == m.width * m.height,
        m.depths.len() == m.width * m.height,
    ensures
        plot(plot(m, x, y, depth, color), x, y, depth, color) == plot(m, x, y, depth, color),
{
    if in_bounds(m, x, y) {
        lemma_cell_in_grid(x, y, m.width, m.height);
    }
}

/// After a write at some depth, a write at a strictly greater depth to the
/// same pixel changes neither colour nor depth.
pub proof fn lemma_farther_write_ignored(
    m: FrameModel,
    x: int,
    y: int,
    near: int,
    c1: Color,
    far: int,
    c2: Color,
)
    requires
        m.colors.len() == m.width * m.height,
        m.depths.len() == m.width * m.height,
        near < far,
    ensures
        plot(plot(m, x, y, near, c1), x, y, far, c2) == plot(m, x, y, near, c1),
{
    if in_bounds(m, x, y) {
        lemma_cell_in_grid(x, y, m.width, m.height);
    }
}

} // verus!
