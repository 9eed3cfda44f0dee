use vstd::prelude::*;
use crate::graphics_handler::TextureWrap;
use crate::vector::{Vector2, COORD_LIMIT};

verus! {

/// An exact fraction `num / den`. It is not reduced, and a renderer divides
/// it in the precision it draws with.
#[derive(Clone, Copy, Debug, PartialEq, Eq, Structural)]
pub struct Ratio {
    pub num: i128,
    pub den: i128,
}

impl Ratio {
    /// The fraction `value / 1`.
    pub open spec fn whole(value: int) -> Ratio {
        Ratio { num: value as i128, den: 1 }
    }
}

/// An orthographic projection: the box that it maps onto clip space.
#[derive(Clone, Copy, Debug, PartialEq, Eq, Structural)]
pub struct Ortho {
    pub left: i32,
    pub right: i32,
    pub bottom: i32,
    pub top: i32,
    pub near: i32,
    pub far: i32,
}

impl Ortho {
    /// The projection of a window of `window` pixels: x grows to the right
    /// from 0 at the left edge, y grows downward from 0 at the top edge, and
    /// depth runs from -1 to 1.
    pub open spec fn of_window(window: Vector2) -> Ortho {
        Ortho { left: 0, right: window.x, bottom: window.y, top: 0, near: (-1) as i32, far: 1 }
    }
}

/// A model-view-projection transform by its three factors: the matrix is
/// `projection * translation * scale`, so a local vertex is scaled first,
/// then moved, then projected.
#[derive(Clone, Copy, Debug, PartialEq, Eq, Structural)]
pub struct Mvp {
    pub projection: Ortho,
    pub translation_x: Ratio,
    pub translation_y: Ratio,
    pub scale_x: Ratio,
    pub scale_y: Ratio,
}

/// The elements that one draw call draws.
#[derive(Clone, Copy, Debug, PartialEq, Eq, Structural)]
pub struct DrawRange {
    pub base_element: i32,
    pub num_elements: i32,
    pub num_instances: i32,
}

impl DrawRange {
    /// One instance of the first `num_elements` elements.
    pub open spec fn first(num_elements: int) -> DrawRange {
        DrawRange { base_element: 0, num_elements: num_elements as i32, num_instances: 1 }
    }
}

/// The sizes that placing and projecting depend on: the size the window
/// was created with, the virtual resolution that sprites are authored in,
/// and the size of the window now.
#[derive(Clone, Copy, Debug, PartialEq, Eq, Structural)]
pub struct Viewport {
    native_size: Vector2,
    virtual_resolution: Vector2,
    window_size: Vector2,
}

impl Viewport {
    pub closed spec fn spec_native_size(&self) -> Vector2 {
        self.native_size
    }

    pub closed spec fn spec_virtual_resolution(&self) -> Vector2 {
        self.virtual_resolution
    }

    pub closed spec fn spec_window_size(&self) -> Vector2 {
        self.window_size
    }

    /// Whether sizes are acceptable: a native size and a virtual resolution
    /// of at least one pixel each way, and no size beyond the coordinate
    /// limit.
    pub open spec fn valid_sizes(native_size: Vector2, virtual_resolution: Vector2) -> bool {
        &&& 0 < native_size.x <= COORD_LIMIT
        &&& 0 < native_size.y <= COORD_LIMIT
        &&& 0 < virtual_resolution.x <= COORD_LIMIT
        &&& 0 < virtual_resolution.y <= COORD_LIMIT
    }

    /// Whether a window size is acceptable: not negative and within the
    /// coordinate limit.
    pub open spec fn valid_window(window_size: Vector2) -> bool {
        &&& 0 <= window_size.x <= COORD_LIMIT
        &&& 0 <= window_size.y <= COORD_LIMIT
    }

    /// The invariant of a viewport.
    pub open spec fn wf(&self) -> bool {
        &&& Viewport::valid_sizes(self.spec_native_size(), self.spec_virtual_resolution())
        &&& Viewport::valid_window(self.spec_window_size())
    }

    /// How many native pixels one unit of the virtual resolution takes, per
    /// axis. The quotient is whole: a remainder is dropped.
    pub open spec fn virtual_proportion(&self) -> (int, int) {
        (
            self.spec_native_size().x as int / self.spec_virtual_resolution().x as int,
            self.spec_native_size().y as int / self.spec_virtual_resolution().y as int,
        )
    }

    /// Tells whether `new` accepts these sizes.
    pub fn accepts(native_size: Vector2, virtual_resolution: Vector2) -> (b: bool)
        ensures
            b == Viewport::valid_sizes(native_size, virtual_resolution),
    {
        0 < native_size.x && native_size.x <= COORD_LIMIT && 0 < native_size.y && native_size.y
            <= COORD_LIMIT && 0 < virtual_resolution.x && virtual_resolution.x <= COORD_LIMIT && 0
            < virtual_resolution.y && virtual_resolution.y <= COORD_LIMIT
    }

    /// Tells whether `resize` accepts this window size.
    pub fn accepts_window(window_size: Vector2) -> (b: bool)
        ensures
            b == Viewport::valid_window(window_size),
    {
        0 <= window_size.x && window_size.x <= COORD_LIMIT && 0 <= window_size.y && window_size.y
            <= COORD_LIMIT
    }

    /// The viewport of a window that still has the size it was created
    /// with.
    pub fn new(native_size: Vector2, virtual_resolution: Vector2) -> (viewport: Viewport)
        requires
            Viewport::valid_sizes(native_size, virtual_resolution),
        ensures
            viewport.wf(),
            viewport.native_size() == native_size,
            viewport.virtual_resolution() == virtual_resolution,
            viewport.window_size() == native_size,
    {
        Viewport { native_size, virtual_resolution, window_size: native_size }
    }

    /// Records that the window now has the given size. The size recorded
    /// before is forgotten; nothing else changes.
    pub fn resize(&mut self, window_size: Vector2)
        requires
            old(self).wf(),
            Viewport::valid_window(window_size),
        ensures
            final(self).wf(),
            final(self).window_size() == window_size,
            final(self).native_size() == old(self).native_size(),
            final(self).virtual_resolution() == old(self).virtual_resolution(),
    {
        self.window_size = window_size;
    }

    /// The size that the window was created with.
    #[verifier::when_used_as_spec(spec_native_size)]
    pub fn native_size(&self) -> (size: Vector2)
        ensures
            size == self.spec_native_size(),
    {
        self.native_size
    }

    /// The virtual resolution.
    #[verifier::when_used_as_spec(spec_virtual_resolution)]
    pub fn virtual_resolution(&self) -> (size: Vector2)
        ensures
            size == self.spec_virtual_resolution(),
    {
        self.virtual_resolution
    }

    /// The size of the window now.
    #[verifier::when_used_as_spec(spec_window_size)]
    pub fn window_size(&self) -> (size: Vector2)
        ensures
            size == self.spec_window_size(),
    {
        self.window_size
    }
}

/// The transform of a shape at `position` with `size`, both in pixels of
/// the window: the local vertices are scaled by the size, moved to the
/// position and projected as the window is now.
pub open spec fn shape_mvp(position: Vector2, size: Vector2, window_size: Vector2) -> Mvp {
    Mvp {
        projection: Ortho::of_window(window_size),
        translation_x: Ratio::whole(position.x as int),
        translation_y: Ratio::whole(position.y as int),
        scale_x: Ratio::whole(size.x as int),
        scale_y: Ratio::whole(size.y as int),
    }
}

/// The transform of a sprite at `position` with `size`, both in units of
/// the virtual resolution.
///
/// Position and size are first taken to pixels of the native window, by the
/// virtual proportion, and then to the window as it is now, by
/// `window_size / native_size`. The scale is half the size, since the local
/// space is two units wide.
pub open spec fn sprite_mvp(position: Vector2, size: Vector2, viewport: Viewport) -> Mvp {
    let proportion = viewport.virtual_proportion();
    let window = viewport.spec_window_size();
    let native = viewport.spec_native_size();
    Mvp {
        projection: Ortho::of_window(window),
        translation_x: Ratio {
            num: (window.x * (position.x * proportion.0)) as i128,
            den: native.x as i128,
        },
        translation_y: Ratio {
            num: (window.y * (position.y * proportion.1)) as i128,
            den: native.y as i128,
        },
        scale_x: Ratio {
            num: (window.x * (size.x * proportion.0)) as i128,
            den: (2 * native.x) as i128,
        },
        scale_y: Ratio {
            num: (window.y * (size.y * proportion.1)) as i128,
            den: (2 * native.y) as i128,
        },
    }
}

/// The factors for the texture coordinates of an image of `dimensions`
/// pixels: a texture that repeats tiles across the window, at its own
/// size; any other is stretched over the quad.
pub open spec fn tex_scale(
    wrap_mode: TextureWrap,
    window_size: Vector2,
    dimensions: (u32, u32),
) -> (Ratio, Ratio) {
    if wrap_mode == TextureWrap::Repeat {
        (
            Ratio { num: window_size.x as i128, den: dimensions.0 as i128 },
            Ratio { num: window_size.y as i128, den: dimensions.1 as i128 },
        )
    } else {
        (Ratio::whole(1), Ratio::whole(1))
    }
}

/// Resizing the window keeps a sprite in proportion: its translation and
/// its scale, taken as parts of the size of the window, are what they were
/// before.
pub proof fn lemma_resize_keeps_proportion(
    position: Vector2,
    size: Vector2,
    before: Viewport,
    after: Viewport,
)
    requires
        before.wf(),
        after.wf(),
        before.spec_native_size() == after.spec_native_size(),
        before.spec_virtual_resolution() == after.spec_virtual_resolution(),
        position.in_range(),
        size.in_range(),
    ensures
        ({
            let b = sprite_mvp(position, size, before);
            let a = sprite_mvp(position, size, after);
            let wb = before.spec_window_size();
            let wa = after.spec_window_size();
            &&& a.translation_x.den == b.translation_x.den
            &&& a.translation_y.den == b.translation_y.den
            &&& a.scale_x.den == b.scale_x.den
            &&& a.scale_y.den == b.scale_y.den
            &&& a.translation_x.num * wb.x == b.translation_x.num * wa.x
            &&& a.translation_y.num * wb.y == b.translation_y.num * wa.y
            &&& a.scale_x.num * wb.x == b.scale_x.num * wa.x
            &&& a.scale_y.num * wb.y == b.scale_y.num * wa.y
        }),
{
    let proportion = before.virtual_proportion();
    let wb = before.spec_window_size();
    let wa = after.spec_window_size();
    lemma_virtual_proportion_bounds(before);
    lemma_scaled_product(wb.x as int, wa.x as int, position.x * proportion.0);
    lemma_scaled_product(wb.y as int, wa.y as int, position.y * proportion.1);
    lemma_scaled_product(wb.x as int, wa.x as int, size.x * proportion.0);
    lemma_scaled_product(wb.y as int, wa.y as int, size.y * proportion.1);
    lemma_product_bounds(position.x as int, proportion.0);
    lemma_product_bounds(position.y as int, proportion.1);
    lemma_product_bounds(size.x as int, proportion.0);
    lemma_product_bounds(size.y as int, proportion.1);
    lemma_window_product_bounds(wb.x as int, position.x * proportion.0);
    lemma_window_product_bounds(wb.y as int, position.y * proportion.1);
    lemma_window_product_bounds(wb.x as int, size.x * proportion.0);
    lemma_window_product_bounds(wb.y as int, size.y * proportion.1);
    lemma_window_product_bounds(wa.x as int, position.x * proportion.0);
    lemma_window_product_bounds(wa.y as int, position.y * proportion.1);
    lemma_window_product_bounds(wa.x as int, size.x * proportion.0);
    lemma_window_product_bounds(wa.y as int, size.y * proportion.1);
}

/// The virtual proportion of a valid viewport is not negative and not
/// beyond the coordinate limit.
proof fn lemma_virtual_proportion_bounds(viewport: Viewport)
    requires
        viewport.wf(),
    ensures
        0 <= viewport.virtual_proportion().0 <= COORD_LIMIT,
        0 <= viewport.virtual_proportion().1 <= COORD_LIMIT,
{
    let native = viewport.spec_native_size();
    let resolution = viewport.spec_virtual_resolution();
    assert(0 <= native.x as int / resolution.x as int <= native.x) by (nonlinear_arith)
        requires
            0 < native.x,
            0 < resolution.x,
    ;
    assert(0 <= native.y as int / resolution.y as int <= native.y) by (nonlinear_arith)
        requires
            0 < native.y,
            0 < resolution.y,
    ;
}

/// Scaling by one window and then by another is scaling by them in the
/// other order.
proof fn lemma_scaled_product(wb: int, wa: int, k: int)
    ensures
        (wa * k) * wb == (wb * k) * wa,
{
    assert((wa * k) * wb == (wb * k) * wa) by (nonlinear_arith);
}

/// The bounds of a coordinate times a virtual proportion.
proof fn lemma_product_bounds(value: int, proportion: int)
    requires
        -16_777_216 <= value <= 16_777_216,
        0 <= proportion <= 16_777_216,
    ensures
        -281474976710656 <= value * proportion <= 281474976710656,
{
    assert(-281474976710656 <= value * proportion <= 281474976710656) by (nonlinear_arith)
        requires
            -16_777_216 <= value <= 16_777_216,
            0 <= proportion <= 16_777_216,
    ;
}

/// The bounds of a window size times a scaled coordinate.
proof fn lemma_window_product_bounds(window: int, inner: int)
    requires
        0 <= window <= 16_777_216,
        -281474976710656 <= inner <= 281474976710656,
    ensures
        -4722366482869645213696 <= window * inner <= 4722366482869645213696,
{
    assert(-4722366482869645213696 <= window * inner <= 4722366482869645213696)
        by (nonlinear_arith)
        requires
            0 <= window <= 16_777_216,
            -281474976710656 <= inner <= 281474976710656,
    ;
}

/// `window * (value * proportion)`, which a window size, a coordinate and
/// a virtual proportion cannot take out of `i128`.
fn scaled_to_window(window: i32, value: i32, proportion: i32) -> (product: i128)
    requires
        0 <= window <= COORD_LIMIT,
        -COORD_LIMIT <= value <= COORD_LIMIT,
        0 <= proportion <= COORD_LIMIT,
    ensures
        product == window * (value * proportion),
{
    proof {
        lemma_product_bounds(value as int, proportion as int);
        lemma_window_product_bounds(window as int, value * proportion);
    }
    let inner: i64 = (value as i64) * (proportion as i64);
    (window as i128) * (inner as i128)
}

impl Viewport {
    /// Computes the virtual proportion.
    pub fn compute_virtual_proportion(&self) -> (proportion: (i32, i32))
        requires
            self.wf(),
        ensures
            proportion.0 == self.virtual_proportion().0,
            proportion.1 == self.virtual_proportion().1,
            0 <= proportion.0 <= COORD_LIMIT,
            0 <= proportion.1 <= COORD_LIMIT,
    {
        proof {
            lemma_virtual_proportion_bounds(*self);
        }
        let x = self.native_size.x / self.virtual_resolution.x;
        let y = self.native_size.y / self.virtual_resolution.y;
        (x, y)
    }

    /// Composes the transform of a shape at `position` with `size`.
    pub fn shape_mvp(&self, position: Vector2, size: Vector2) -> (mvp: Mvp)
        ensures
            mvp == shape_mvp(position, size, self.window_size()),
    {
        Mvp {
            projection: Ortho {
                left: 0,
                right: self.window_size.x,
                bottom: self.window_size.y,
                top: 0,
                near: -1,
                far: 1,
            },
            translation_x: Ratio { num: position.x as i128, den: 1 },
            translation_y: Ratio { num: position.y as i128, den: 1 },
            scale_x: Ratio { num: size.x as i128, den: 1 },
            scale_y: Ratio { num: size.y as i128, den: 1 },
        }
    }

    /// Composes the transform of a sprite at `position` with `size`, both
    /// in units of the virtual resolution.
    pub fn sprite_mvp(&self, position: Vector2, size: Vector2) -> (mvp: Mvp)
        requires
            self.wf(),
            position.in_range(),
            size.in_range(),
        ensures
            mvp == sprite_mvp(position, size, *self),
    {
        let (proportion_x, proportion_y) = self.compute_virtual_proportion();
        let window = self.window_size;
        let native = self.native_size;
        Mvp {
            projection: Ortho {
                left: 0,
                right: window.x,
                bottom: window.y,
                top: 0,
                near: -1,
                far: 1,
            },
            translation_x: Ratio {
                num: scaled_to_window(window.x, position.x, proportion_x),
                den: native.x as i128,
            },
            translation_y: Ratio {
                num: scaled_to_window(window.y, position.y, proportion_y),
                den: native.y as i128,
            },
            scale_x: Ratio {
                num: scaled_to_window(window.x, size.x, proportion_x),
                den: 2 * (native.x as i128),
            },
            scale_y: Ratio {
                num: scaled_to_window(window.y, size.y, proportion_y),
                den: 2 * (native.y as i128),
            },
        }
    }

    /// Computes the factors for the texture coordinates of an image of
    /// `dimensions` pixels.
    pub fn tex_scale(&self, wrap_mode: TextureWrap, dimensions: (u32, u32)) -> (scale: (
        Ratio,
        Ratio,
    ))
        ensures
            scale == tex_scale(wrap_mode, self.window_size(), dimensions),
    {
        match wrap_mode {
            TextureWrap::Repeat => (
                Ratio { num: self.window_size.x as i128, den: dimensions.0 as i128 },
                Ratio { num: self.window_size.y as i128, den: dimensions.1 as i128 },
            ),
            _ => (Ratio { num: 1, den: 1 }, Ratio { num: 1, den: 1 }),
        }
    }
}

} // verus!
