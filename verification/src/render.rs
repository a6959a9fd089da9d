//! Pixel estimators driving the tracer across a raster, and the sink they
//! write to: point sampling, fixed-grid supersampling, and adaptive
//! (variance-gated) supersampling.

use vstd::prelude::*;
use crate::environment::Environment;
use crate::fx;
use crate::fx::{fxadd, fxmul, sat, tdiv, HALF, SCALE};
use crate::mediums::Medium;
use crate::vector::Vector;

verus! {

/// A sink failure, surfaced as the only error the render loop propagates.
#[derive(Debug)]
pub struct RenderError {
    pub message: String,
}

/// The output sink a render writes to. Implementations live outside the
/// verified core (a file encoder, a canvas); no behavior is assumed of them
/// beyond their signatures.
pub trait RenderBackend {
    /// Announces the raster size before the render begins.
    fn render_size(&mut self, width: u32, height: u32);

    fn start_render(&mut self) -> Result<(), RenderError>;

    fn finish_render(&mut self) -> Result<(), RenderError>;

    /// Writes one pixel; the color components lie in [0, 1].
    fn put_pixel(&mut self, x: u32, y: u32, color: &Vector) -> Result<(), RenderError>;
}

/// A sink that discards everything.
pub struct NullRenderBackend;

impl NullRenderBackend {
    pub fn new() -> NullRenderBackend {
        NullRenderBackend {  }
    }
}

impl RenderBackend for NullRenderBackend {
    fn render_size(&mut self, _width: u32, _height: u32)
        ensures
            *final(self) == *old(self),
    {
    }

    fn start_render(&mut self) -> (r: Result<(), RenderError>)
        ensures
            r is Ok,
            *final(self) == *old(self),
    {
        Ok(())
    }

    fn finish_render(&mut self) -> (r: Result<(), RenderError>)
        ensures
            r is Ok,
            *final(self) == *old(self),
    {
        Ok(())
    }

    fn put_pixel(&mut self, _x: u32, _y: u32, _color: &Vector) -> (r: Result<(), RenderError>)
        ensures
            r is Ok,
            *final(self) == *old(self),
    {
        Ok(())
    }
}

/// The deterministic sub-pixel offset: the cell midpoint.
fn rnd() -> (r: i64)
    ensures
        r == HALF,
{
    HALF
}

/// One point-sampled pixel: the traced color of the camera ray through
/// (x, y), clamped to the unit color cube.
pub open spec fn spec_point_sample(env: Environment, x: i64, y: i64) -> Vector {
    Vector::spec_clip(
        env.spec_trace(
            0,
            Medium { n_refr: SCALE as i64, betta: 0 },
            SCALE as i64,
            env.spec_camera(x as int, y as int),
        ),
    )
}

/// The point estimator for one pixel: one primary ray, traced from air with
/// full weight, clamped for the sink.
pub fn point_pixel(environment: &Environment, x: i64, y: i64) -> (r: Vector)
    ensures
        r == spec_point_sample(*environment, x, y),
{
    let air = Medium::air();
    let ray = environment.camera(x, y);
    environment.trace(&air, SCALE, &ray).clip()
}

/// Renders the raster with one primary ray per pixel. On the first sink
/// failure the render bracket is still closed and that first error is
/// returned.
pub fn render_scene<B: RenderBackend>(
    environment: &Environment,
    half_width: i64,
    half_height: i64,
    nx: u32,
    ny: u32,
    backend: &mut B,
) -> (r: Result<(), RenderError>) {
    let pixel_width = fx::fx_div(fx::fx_mul(2 * SCALE, half_width), fx::fx_from_u32(nx));
    let pixel_height = fx::fx_div(fx::fx_mul(2 * SCALE, half_height), fx::fx_from_u32(ny));

    backend.render_size(nx, ny);

    match backend.start_render() {
        Ok(()) => {},
        Err(e) => {
            return Err(e);
        },
    }

    let mut y = half_height;

    let mut y_index: u32 = 0;
    #[verifier::loop_isolation(false)]
    while y_index < ny
        decreases ny - y_index,
    {
        let mut x = fx::fx_neg(half_width);
        let mut x_index: u32 = 0;
        #[verifier::loop_isolation(false)]
        while x_index < nx
            decreases nx - x_index,
        {
            let color = point_pixel(environment, x, y);
            match backend.put_pixel(x_index, y_index, &color) {
                Ok(()) => {},
                Err(e) => {
                    let _ = backend.finish_render();
                    return Err(e);
                },
            }
            x = fx::fx_add(x, pixel_width);
            x_index = x_index + 1;
        }
        y = fx::fx_sub(y, pixel_height);
        y_index = y_index + 1;
    }

    backend.finish_render()
}

/// The traced (unclamped) color of the sub-grid cell (i, j): a ray through
/// the cell's midpoint offset from the pixel corner (x1, y1).
pub open spec fn spec_cell_trace(
    env: Environment,
    x1: i64,
    y1: i64,
    psw: i64,
    psh: i64,
    i: int,
    j: int,
) -> Vector {
    env.spec_trace(
        0,
        Medium { n_refr: SCALE as i64, betta: 0 },
        SCALE as i64,
        env.spec_camera(
            fxadd(x1 as int, fxmul(psw as int, fxadd(i * SCALE, HALF as int))),
            fxadd(y1 as int, fxmul(psh as int, fxadd(j * SCALE, HALF as int))),
        ),
    )
}

/// Sums the cells of row `i` from column `j` on onto `acc`.
pub open spec fn spec_grid_cells(
    env: Environment,
    x1: i64,
    y1: i64,
    psw: i64,
    psh: i64,
    i: int,
    j: int,
    ny_sub: int,
    acc: Vector,
) -> Vector
    decreases ny_sub - j,
{
    if j < 0 || j >= ny_sub {
        acc
    } else {
        spec_grid_cells(
            env,
            x1,
            y1,
            psw,
            psh,
            i,
            j + 1,
            ny_sub,
            Vector::spec_add(acc, spec_cell_trace(env, x1, y1, psw, psh, i, j)),
        )
    }
}

/// Sums all cells of the rows from `i` on onto `acc`.
pub open spec fn spec_grid_rows(
    env: Environment,
    x1: i64,
    y1: i64,
    psw: i64,
    psh: i64,
    i: int,
    nx_sub: int,
    ny_sub: int,
    acc: Vector,
) -> Vector
    decreases nx_sub - i,
{
    if i < 0 || i >= nx_sub {
        acc
    } else {
        spec_grid_rows(
            env,
            x1,
            y1,
            psw,
            psh,
            i + 1,
            nx_sub,
            ny_sub,
            spec_grid_cells(env, x1, y1, psw, psh, i, 0, ny_sub, acc),
        )
    }
}

/// The fixed-grid estimator for one pixel: one ray per sub-grid cell at the
/// cell midpoint, summed (the average and clamp are the caller's).
pub fn grid_pixel(
    environment: &Environment,
    x1: i64,
    y1: i64,
    pixel_sub_width: i64,
    pixel_sub_height: i64,
    nx_sub: u32,
    ny_sub: u32,
) -> (r: Vector)
    ensures
        r == spec_grid_rows(
            *environment,
            x1,
            y1,
            pixel_sub_width,
            pixel_sub_height,
            0,
            nx_sub as int,
            ny_sub as int,
            Vector { x: 0, y: 0, z: 0 },
        ),
{
    let air = Medium::air();
    let mut color = Vector::from_scalar(0);
    let ghost target = spec_grid_rows(
        *environment,
        x1,
        y1,
        pixel_sub_width,
        pixel_sub_height,
        0,
        nx_sub as int,
        ny_sub as int,
        color,
    );

    let mut i_sub: u32 = 0;
    #[verifier::loop_isolation(false)]
    while i_sub < nx_sub
        invariant
            target == spec_grid_rows(
                *environment,
                x1,
                y1,
                pixel_sub_width,
                pixel_sub_height,
                i_sub as int,
                nx_sub as int,
                ny_sub as int,
                color,
            ),
        decreases nx_sub - i_sub,
    {
        let mut j_sub: u32 = 0;
        #[verifier::loop_isolation(false)]
        while j_sub < ny_sub
            invariant
                i_sub < nx_sub,
                target == spec_grid_rows(
                    *environment,
                    x1,
                    y1,
                    pixel_sub_width,
                    pixel_sub_height,
                    i_sub + 1,
                    nx_sub as int,
                    ny_sub as int,
                    spec_grid_cells(
                        *environment,
                        x1,
                        y1,
                        pixel_sub_width,
                        pixel_sub_height,
                        i_sub as int,
                        j_sub as int,
                        ny_sub as int,
                        color,
                    ),
                ),
            decreases ny_sub - j_sub,
        {
            let ray = environment.camera(
                fx::fx_add(x1, fx::fx_mul(pixel_sub_width, fx::fx_add(fx::fx_from_u32(i_sub), rnd()))),
                fx::fx_add(y1, fx::fx_mul(pixel_sub_height, fx::fx_add(fx::fx_from_u32(j_sub), rnd()))),
            );
            color.add_assign(environment.trace(&air, SCALE, &ray));
            j_sub = j_sub + 1;
        }
        i_sub = i_sub + 1;
    }
    color
}

/// Renders the raster with an n-by-m sub-grid of rays per pixel, averaged
/// and clamped. On the first sink failure the render bracket is still
/// closed and that first error is returned.
pub fn render_scene_supersampling_grid<B: RenderBackend>(
    environment: &Environment,
    half_width: i64,
    half_height: i64,
    nx: u32,
    ny: u32,
    nx_sub: u32,
    ny_sub: u32,
    backend: &mut B,
) -> (r: Result<(), RenderError>) {
    let pixel_width = fx::fx_div(fx::fx_mul(2 * SCALE, half_width), fx::fx_from_u32(nx));
    let pixel_height = fx::fx_div(fx::fx_mul(2 * SCALE, half_height), fx::fx_from_u32(ny));

    let pixel_sub_width = fx::fx_div(pixel_width, fx::fx_from_u32(nx_sub));
    let pixel_sub_height = fx::fx_div(pixel_height, fx::fx_from_u32(ny_sub));

    assert((nx_sub as u64) * (ny_sub as u64) <= u64::MAX) by (nonlinear_arith)
        requires
            nx_sub <= u32::MAX,
            ny_sub <= u32::MAX,
    ;
    let primary_samples = fx::fx_from_u64((nx_sub as u64) * (ny_sub as u64));

    backend.render_size(nx, ny);

    match backend.start_render() {
        Ok(()) => {},
        Err(e) => {
            return Err(e);
        },
    }

    let mut y = half_height;

    let mut y_index: u32 = 0;
    #[verifier::loop_isolation(false)]
    while y_index < ny
        decreases ny - y_index,
    {
        let mut x = fx::fx_neg(half_width);
        let mut x_index: u32 = 0;
        #[verifier::loop_isolation(false)]
        while x_index < nx
            decreases nx - x_index,
        {
            let x1 = fx::fx_sub(x, fx::fx_mul(HALF, pixel_width));
            let y1 = fx::fx_sub(y, fx::fx_mul(HALF, pixel_height));

            let color = grid_pixel(
                environment,
                x1,
                y1,
                pixel_sub_width,
                pixel_sub_height,
                nx_sub,
                ny_sub,
            ).div_s(primary_samples);

            match backend.put_pixel(x_index, y_index, &color.clip()) {
                Ok(()) => {},
                Err(e) => {
                    let _ = backend.finish_render();
                    return Err(e);
                },
            }
            x = fx::fx_add(x, pixel_width);
            x_index = x_index + 1;
        }
        y = fx::fx_sub(y, pixel_height);
        y_index = y_index + 1;
    }

    backend.finish_render()
}

/// Sample cap of the adaptive estimator.
pub const MAX_ADAPTIVE_COUNT: u32 = 99;

/// Band into which each sample channel is clamped before entering the
/// adaptive estimator's exact integer accumulators (2048 in value units).
pub const SAMPLE_BOUND: i64 = 34359738368;

/// One sample channel clamped into the estimator band.
pub open spec fn band1(c: int) -> int {
    if c < -SAMPLE_BOUND {
        -SAMPLE_BOUND as int
    } else if c > SAMPLE_BOUND {
        SAMPLE_BOUND as int
    } else {
        c
    }
}

/// Running sums of the adaptive estimator: the sample count, the per-channel
/// sums, and the per-channel sums of squares, all exact integers.
pub ghost struct SampleStats {
    pub count: int,
    pub sx: int,
    pub sy: int,
    pub sz: int,
    pub qx: int,
    pub qy: int,
    pub qz: int,
}

/// All-zero running sums.
pub open spec fn stats_zero() -> SampleStats {
    SampleStats { count: 0, sx: 0, sy: 0, sz: 0, qx: 0, qy: 0, qz: 0 }
}

/// One sample folded into the running sums, channels clamped to the band.
pub open spec fn stats_add(st: SampleStats, c: Vector) -> SampleStats {
    let bx = band1(c.x as int);
    let by = band1(c.y as int);
    let bz = band1(c.z as int);
    SampleStats {
        count: st.count + 1,
        sx: st.sx + bx,
        sy: st.sy + by,
        sz: st.sz + bz,
        qx: st.qx + bx * bx,
        qy: st.qy + by * by,
        qz: st.qz + bz * bz,
    }
}

/// Well-formedness of the running sums: ranges that keep the arithmetic
/// exact, and the Cauchy-Schwarz inequality per channel, which makes the
/// variance estimate non-negative.
pub open spec fn stats_ok(st: SampleStats) -> bool {
    &&& st.count >= 0
    &&& 0 <= st.qx <= st.count * SAMPLE_BOUND * SAMPLE_BOUND
    &&& 0 <= st.qy <= st.count * SAMPLE_BOUND * SAMPLE_BOUND
    &&& 0 <= st.qz <= st.count * SAMPLE_BOUND * SAMPLE_BOUND
    &&& -(st.count * SAMPLE_BOUND) <= st.sx <= st.count * SAMPLE_BOUND
    &&& -(st.count * SAMPLE_BOUND) <= st.sy <= st.count * SAMPLE_BOUND
    &&& -(st.count * SAMPLE_BOUND) <= st.sz <= st.count * SAMPLE_BOUND
    &&& st.count * st.qx >= st.sx * st.sx
    &&& st.count * st.qy >= st.sy * st.sy
    &&& st.count * st.qz >= st.sz * st.sz
}

/// One Cauchy-Schwarz induction step: adding a sample keeps
/// `count * sum_of_squares >= sum * sum`.
proof fn lemma_cs_step(n: int, q: int, s: int, a: int)
    requires
        n >= 0,
        q >= 0,
        n * q >= s * s,
    ensures
        (n + 1) * (q + a * a) >= (s + a) * (s + a),
{
    assert(a * a >= 0) by (nonlinear_arith);
    assert(n * a * a >= 0) by (nonlinear_arith)
        requires
            n >= 0,
    ;
    assert((n * a * a + q) * (n * a * a + q) >= 4 * (n * q) * (a * a)) by (nonlinear_arith);
    assert(4 * (n * q) * (a * a) >= 4 * (s * s) * (a * a)) by (nonlinear_arith)
        requires
            n * q >= s * s,
            a * a >= 0,
    ;
    assert(4 * (s * s) * (a * a) == (2 * s * a) * (2 * s * a)) by (nonlinear_arith);
    assert(n * a * a + q >= 2 * s * a) by (nonlinear_arith)
        requires
            n * a * a + q >= 0,
            (n * a * a + q) * (n * a * a + q) >= (2 * s * a) * (2 * s * a),
    ;
    assert((n + 1) * (q + a * a) == n * q + q + n * a * a + a * a) by (nonlinear_arith);
    assert(n * q + q + n * a * a + a * a >= s * s + 2 * s * a + a * a);
    assert((s + a) * (s + a) == s * s + 2 * s * a + a * a) by (nonlinear_arith);
}

/// Folding a sample preserves well-formedness of the running sums.
proof fn lemma_stats_add_ok(st: SampleStats, c: Vector)
    requires
        stats_ok(st),
    ensures
        stats_ok(stats_add(st, c)),
{
    let bx = band1(c.x as int);
    let by = band1(c.y as int);
    let bz = band1(c.z as int);
    lemma_cs_step(st.count, st.qx, st.sx, bx);
    lemma_cs_step(st.count, st.qy, st.sy, by);
    lemma_cs_step(st.count, st.qz, st.sz, bz);
    assert(bx * bx <= SAMPLE_BOUND * SAMPLE_BOUND) by (nonlinear_arith)
        requires
            -SAMPLE_BOUND <= bx <= SAMPLE_BOUND,
    ;
    assert(by * by <= SAMPLE_BOUND * SAMPLE_BOUND) by (nonlinear_arith)
        requires
            -SAMPLE_BOUND <= by <= SAMPLE_BOUND,
    ;
    assert(bz * bz <= SAMPLE_BOUND * SAMPLE_BOUND) by (nonlinear_arith)
        requires
            -SAMPLE_BOUND <= bz <= SAMPLE_BOUND,
    ;
    assert(bx * bx >= 0 && by * by >= 0 && bz * bz >= 0) by (nonlinear_arith);
}

/// The running variance estimate of well-formed sums is never negative:
/// the per-channel Cauchy-Schwarz inequalities make the numerator of the
/// unbiased estimator non-negative.
pub proof fn lemma_variance_estimate_nonneg(st: SampleStats)
    requires
        stats_ok(st),
    ensures
        spec_variance_estimate(st) >= 0,
{
    assert(st.count * (st.qx + st.qy + st.qz) >= st.sx * st.sx + st.sy * st.sy + st.sz * st.sz)
        by (nonlinear_arith)
        requires
            st.count * st.qx >= st.sx * st.sx,
            st.count * st.qy >= st.sy * st.sy,
            st.count * st.qz >= st.sz * st.sz,
    ;
    let numerator = st.count * (st.qx + st.qy + st.qz) - (st.sx * st.sx + st.sy * st.sy + st.sz
        * st.sz);
    let divisor = st.count * (st.count - 1) * SCALE;
    assert(divisor >= 0) by (nonlinear_arith)
        requires
            divisor == st.count * (st.count - 1) * SCALE,
            st.count >= 0,
    ;
    if divisor > 0 {
        vstd::arithmetic::div_mod::lemma_div_pos_is_pos(numerator, divisor);
    }
}

/// Folds the cells of row `i` from column `j` on into the running sums.
pub open spec fn spec_adaptive_cells(
    env: Environment,
    x1: i64,
    y1: i64,
    psw: i64,
    psh: i64,
    i: int,
    j: int,
    ny_sub: int,
    st: SampleStats,
) -> SampleStats
    decreases ny_sub - j,
{
    if j < 0 || j >= ny_sub {
        st
    } else {
        spec_adaptive_cells(
            env,
            x1,
            y1,
            psw,
            psh,
            i,
            j + 1,
            ny_sub,
            stats_add(st, spec_cell_trace(env, x1, y1, psw, psh, i, j)),
        )
    }
}

/// Folds one whole batch (all rows from `i` on) into the running sums.
pub open spec fn spec_adaptive_rows(
    env: Environment,
    x1: i64,
    y1: i64,
    psw: i64,
    psh: i64,
    i: int,
    nx_sub: int,
    ny_sub: int,
    st: SampleStats,
) -> SampleStats
    decreases nx_sub - i,
{
    if i < 0 || i >= nx_sub {
        st
    } else {
        spec_adaptive_rows(
            env,
            x1,
            y1,
            psw,
            psh,
            i + 1,
            nx_sub,
            ny_sub,
            spec_adaptive_cells(env, x1, y1, psw, psh, i, 0, ny_sub, st),
        )
    }
}

/// The unbiased running variance estimate, in value units: the exact
/// integer form of `(E[x^2] - E[x]^2) * n / (n - 1)` summed over the three
/// channels, truncated into fixed point. A count below 2 yields 0.
pub open spec fn spec_variance_estimate(st: SampleStats) -> int {
    sat(
        tdiv(
            st.count * (st.qx + st.qy + st.qz) - (st.sx * st.sx + st.sy * st.sy + st.sz * st.sz),
            st.count * (st.count - 1) * SCALE,
        ),
    )
}

/// The running mean of the samples, channel by channel.
pub open spec fn spec_stats_mean(st: SampleStats) -> Vector {
    Vector {
        x: sat(tdiv(st.sx, st.count)) as i64,
        y: sat(tdiv(st.sy, st.count)) as i64,
        z: sat(tdiv(st.sz, st.count)) as i64,
    }
}

/// The adaptive loop: batches are folded in until the variance estimate
/// falls below the caller's bound or the sample cap is reached.
pub open spec fn spec_adaptive_final(
    env: Environment,
    x1: i64,
    y1: i64,
    psw: i64,
    psh: i64,
    nx_sub: int,
    ny_sub: int,
    variance: int,
    st: SampleStats,
) -> SampleStats
    decreases crate::environment::pos0(MAX_ADAPTIVE_COUNT - st.count),
{
    if nx_sub <= 0 || ny_sub <= 0 {
        st
    } else {
        let st2 = spec_adaptive_rows(env, x1, y1, psw, psh, 0, nx_sub, ny_sub, st);
        // The last disjunct never fires for a non-empty batch over a valid
        // count; it only keeps the recursion visibly well-founded.
        if spec_variance_estimate(st2) < variance || st2.count >= MAX_ADAPTIVE_COUNT
            || !(st.count < st2.count && st.count >= 0) {
            st2
        } else {
            spec_adaptive_final(env, x1, y1, psw, psh, nx_sub, ny_sub, variance, st2)
        }
    }
}

/// One sample channel clamped into the estimator band.
fn band_channel(c: i64) -> (r: i64)
    ensures
        r as int == band1(c as int),
{
    if c < -SAMPLE_BOUND {
        -SAMPLE_BOUND
    } else if c > SAMPLE_BOUND {
        SAMPLE_BOUND
    } else {
        c
    }
}

/// The adaptive estimator for one pixel: samples accumulate in batches of
/// the sub-grid size until the variance estimate drops below `variance` or
/// the cap is reached; the running mean is returned. The sample count ends
/// between one batch and the cap plus one batch, and the final variance
/// estimate is never negative.
pub fn adaptive_pixel(
    environment: &Environment,
    x1: i64,
    y1: i64,
    pixel_sub_width: i64,
    pixel_sub_height: i64,
    nx_sub: u32,
    ny_sub: u32,
    variance: i64,
) -> (r: Vector)
    requires
        1 <= nx_sub <= 4096,
        1 <= ny_sub <= 4096,
    ensures
        ({
            let st = spec_adaptive_final(
                *environment,
                x1,
                y1,
                pixel_sub_width,
                pixel_sub_height,
                nx_sub as int,
                ny_sub as int,
                variance as int,
                stats_zero(),
            );
            &&& r == spec_stats_mean(st)
            &&& (nx_sub as int) * (ny_sub as int) <= st.count <= MAX_ADAPTIVE_COUNT as int - 1
                + (nx_sub as int) * (ny_sub as int)
            &&& st.count % ((nx_sub as int) * (ny_sub as int)) == 0
            &&& spec_variance_estimate(st) >= 0
        }),
{
    let air = Medium::air();
    let mut count: u32 = 0;
    let mut sx: i128 = 0;
    let mut sy: i128 = 0;
    let mut sz: i128 = 0;
    let mut qx: i128 = 0;
    let mut qy: i128 = 0;
    let mut qz: i128 = 0;

    let ghost mut rounds: int = 0;
    let ghost target = spec_adaptive_final(
        *environment,
        x1,
        y1,
        pixel_sub_width,
        pixel_sub_height,
        nx_sub as int,
        ny_sub as int,
        variance as int,
        stats_zero(),
    );

    loop
        invariant_except_break
            count < MAX_ADAPTIVE_COUNT,
            ({
                let st = SampleStats {
                    count: count as int,
                    sx: sx as int,
                    sy: sy as int,
                    sz: sz as int,
                    qx: qx as int,
                    qy: qy as int,
                    qz: qz as int,
                };
                stats_ok(st) && target == spec_adaptive_final(
                    *environment,
                    x1,
                    y1,
                    pixel_sub_width,
                    pixel_sub_height,
                    nx_sub as int,
                    ny_sub as int,
                    variance as int,
                    st,
                )
            }),
        invariant
            1 <= nx_sub <= 4096,
            1 <= ny_sub <= 4096,
            count as int == rounds * ((nx_sub as int) * (ny_sub as int)),
            air == (Medium { n_refr: SCALE as i64, betta: 0 }),
            target == spec_adaptive_final(
                *environment,
                x1,
                y1,
                pixel_sub_width,
                pixel_sub_height,
                nx_sub as int,
                ny_sub as int,
                variance as int,
                stats_zero(),
            ),
        ensures
            ({
                let st = SampleStats {
                    count: count as int,
                    sx: sx as int,
                    sy: sy as int,
                    sz: sz as int,
                    qx: qx as int,
                    qy: qy as int,
                    qz: qz as int,
                };
                stats_ok(st) && st == target && spec_variance_estimate(st) >= 0
                    && (nx_sub as int) * (ny_sub as int) <= count as int && count as int
                    <= MAX_ADAPTIVE_COUNT as int - 1 + (nx_sub as int) * (ny_sub as int)
            }),
        decreases MAX_ADAPTIVE_COUNT - count,
    {
        let ghost round_start = SampleStats {
            count: count as int,
            sx: sx as int,
            sy: sy as int,
            sz: sz as int,
            qx: qx as int,
            qy: qy as int,
            qz: qz as int,
        };

        let mut i_sub: u32 = 0;
        #[verifier::loop_isolation(false)]
        while i_sub < nx_sub
            invariant
                i_sub <= nx_sub,
                count as int == round_start.count + (i_sub as int) * (ny_sub as int),
                ({
                    let st = SampleStats {
                        count: count as int,
                        sx: sx as int,
                        sy: sy as int,
                        sz: sz as int,
                        qx: qx as int,
                        qy: qy as int,
                        qz: qz as int,
                    };
                    stats_ok(st) && spec_adaptive_rows(
                        *environment,
                        x1,
                        y1,
                        pixel_sub_width,
                        pixel_sub_height,
                        i_sub as int,
                        nx_sub as int,
                        ny_sub as int,
                        st,
                    ) == spec_adaptive_rows(
                        *environment,
                        x1,
                        y1,
                        pixel_sub_width,
                        pixel_sub_height,
                        0,
                        nx_sub as int,
                        ny_sub as int,
                        round_start,
                    )
                }),
            decreases nx_sub - i_sub,
        {
            let mut j_sub: u32 = 0;
            #[verifier::loop_isolation(false)]
            while j_sub < ny_sub
                invariant
                    i_sub < nx_sub,
                    j_sub <= ny_sub,
                    count as int == round_start.count + (i_sub as int) * (ny_sub as int)
                        + j_sub as int,
                    ({
                        let st = SampleStats {
                            count: count as int,
                            sx: sx as int,
                            sy: sy as int,
                            sz: sz as int,
                            qx: qx as int,
                            qy: qy as int,
                            qz: qz as int,
                        };
                        stats_ok(st) && spec_adaptive_rows(
                            *environment,
                            x1,
                            y1,
                            pixel_sub_width,
                            pixel_sub_height,
                            i_sub + 1,
                            nx_sub as int,
                            ny_sub as int,
                            spec_adaptive_cells(
                                *environment,
                                x1,
                                y1,
                                pixel_sub_width,
                                pixel_sub_height,
                                i_sub as int,
                                j_sub as int,
                                ny_sub as int,
                                st,
                            ),
                        ) == spec_adaptive_rows(
                            *environment,
                            x1,
                            y1,
                            pixel_sub_width,
                            pixel_sub_height,
                            0,
                            nx_sub as int,
                            ny_sub as int,
                            round_start,
                        )
                    }),
                decreases ny_sub - j_sub,
            {
                let ray = environment.camera(
                    fx::fx_add(
                        x1,
                        fx::fx_mul(pixel_sub_width, fx::fx_add(fx::fx_from_u32(i_sub), rnd())),
                    ),
                    fx::fx_add(
                        y1,
                        fx::fx_mul(pixel_sub_height, fx::fx_add(fx::fx_from_u32(j_sub), rnd())),
                    ),
                );
                let color = environment.trace(&air, SCALE, &ray);
                let bx = band_channel(color.x);
                let by = band_channel(color.y);
                let bz = band_channel(color.z);
                proof {
                    lemma_stats_add_ok(
                        SampleStats {
                            count: count as int,
                            sx: sx as int,
                            sy: sy as int,
                            sz: sz as int,
                            qx: qx as int,
                            qy: qy as int,
                            qz: qz as int,
                        },
                        color,
                    );
                }
                proof {
                    assert(count as int <= 98 + 16777216) by (nonlinear_arith)
                        requires
                            count as int == round_start.count + (i_sub as int) * (ny_sub as int)
                                + j_sub as int,
                            round_start.count <= 98,
                            0 <= i_sub as int <= 4095,
                            0 <= j_sub as int <= 4095,
                            0 <= ny_sub as int <= 4096,
                    ;
                }
                count = count + 1;
                sx = sx + bx as i128;
                sy = sy + by as i128;
                sz = sz + bz as i128;
                qx = qx + (bx as i128) * (bx as i128);
                qy = qy + (by as i128) * (by as i128);
                qz = qz + (bz as i128) * (bz as i128);
                j_sub = j_sub + 1;
            }
            proof {
                assert((i_sub as int + 1) * (ny_sub as int) == (i_sub as int) * (ny_sub as int)
                    + ny_sub as int) by (nonlinear_arith);
            }
            i_sub = i_sub + 1;
        }

        proof {
            assert((nx_sub as int) * (ny_sub as int) <= 16777216) by (nonlinear_arith)
                requires
                    1 <= nx_sub <= 4096,
                    1 <= ny_sub <= 4096,
            ;
            assert(count as int <= 16777315);
            assert(sx * sx <= 0x1000000000000000000000000000000 && sx * sx >= 0)
                by (nonlinear_arith)
                requires
                    -576464153917521920 <= sx <= 576464153917521920,
            ;
            assert(sy * sy <= 0x1000000000000000000000000000000 && sy * sy >= 0)
                by (nonlinear_arith)
                requires
                    -576464153917521920 <= sy <= 576464153917521920,
            ;
            assert(sz * sz <= 0x1000000000000000000000000000000 && sz * sz >= 0)
                by (nonlinear_arith)
                requires
                    -576464153917521920 <= sz <= 576464153917521920,
            ;
            assert((count as int) * ((qx + qy + qz) as int)
                <= 0x4000000000000000000000000000000 && (count as int) * ((qx + qy + qz) as int)
                >= 0) by (nonlinear_arith)
                requires
                    0 <= count as int <= 16777315,
                    0 <= (qx + qy + qz) as int <= 0x2000000000000000000000000,
            ;
            assert(count as int >= 1) by (nonlinear_arith)
                requires
                    count as int == round_start.count + (nx_sub as int) * (ny_sub as int),
                    round_start.count >= 0,
                    1 <= nx_sub,
                    1 <= ny_sub,
            ;
            assert(0 <= (count as int) * (count as int - 1) <= 0x100000000000000)
                by (nonlinear_arith)
                requires
                    1 <= count as int <= 16777315,
            ;
        }
        let numerator: i128 = (count as i128) * (qx + qy + qz) - (sx * sx + sy * sy + sz * sz);
        let divisor: i128 = (count as i128) * (count as i128 - 1) * (SCALE as i128);
        proof {
            let st = SampleStats {
                count: count as int,
                sx: sx as int,
                sy: sy as int,
                sz: sz as int,
                qx: qx as int,
                qy: qy as int,
                qz: qz as int,
            };
            assert(numerator as int == st.count * (st.qx + st.qy + st.qz) - (st.sx * st.sx + st.sy
                * st.sy + st.sz * st.sz)) by (nonlinear_arith)
                requires
                    numerator == (count as i128) * (qx + qy + qz) - (sx * sx + sy * sy + sz * sz),
                    st.count == count as int,
                    st.sx == sx as int,
                    st.sy == sy as int,
                    st.sz == sz as int,
                    st.qx == qx as int,
                    st.qy == qy as int,
                    st.qz == qz as int,
            ;
            assert(divisor as int == st.count * (st.count - 1) * SCALE) by (nonlinear_arith)
                requires
                    divisor == (count as i128) * (count as i128 - 1) * (SCALE as i128),
                    st.count == count as int,
                    0 <= count as int <= 16777315,
            ;
            assert(st.count * (st.qx + st.qy + st.qz) >= st.sx * st.sx + st.sy * st.sy + st.sz
                * st.sz) by (nonlinear_arith)
                requires
                    st.count * st.qx >= st.sx * st.sx,
                    st.count * st.qy >= st.sy * st.sy,
                    st.count * st.qz >= st.sz * st.sz,
            ;
            assert(numerator >= 0);
            assert(divisor >= 0) by (nonlinear_arith)
                requires
                    divisor == (count as i128) * (count as i128 - 1) * (SCALE as i128),
                    count >= 1,
            ;
        }
        let d = fx::wide_div(numerator, divisor);
        proof {
            let st = SampleStats {
                count: count as int,
                sx: sx as int,
                sy: sy as int,
                sz: sz as int,
                qx: qx as int,
                qy: qy as int,
                qz: qz as int,
            };
            if divisor > 0 {
                vstd::arithmetic::div_mod::lemma_div_pos_is_pos(numerator as int, divisor as int);
            }
            assert(d as int == spec_variance_estimate(st));
            assert(d >= 0);
        }

        proof {
            let st = SampleStats {
                count: count as int,
                sx: sx as int,
                sy: sy as int,
                sz: sz as int,
                qx: qx as int,
                qy: qy as int,
                qz: qz as int,
            };
            assert(count as int > round_start.count) by (nonlinear_arith)
                requires
                    count as int == round_start.count + (nx_sub as int) * (ny_sub as int),
                    1 <= nx_sub,
                    1 <= ny_sub,
            ;
            rounds = rounds + 1;
            assert(count as int == rounds * ((nx_sub as int) * (ny_sub as int)))
                by (nonlinear_arith)
                requires
                    count as int == round_start.count + (nx_sub as int) * (ny_sub as int),
                    round_start.count == (rounds - 1) * ((nx_sub as int) * (ny_sub as int)),
            ;
            assert(st == spec_adaptive_rows(
                *environment,
                x1,
                y1,
                pixel_sub_width,
                pixel_sub_height,
                0,
                nx_sub as int,
                ny_sub as int,
                round_start,
            ));
        }

        if d < variance || count >= MAX_ADAPTIVE_COUNT {
            break;
        }
    }

    proof {
        assert((nx_sub as int) * (ny_sub as int) >= 1) by (nonlinear_arith)
            requires
                1 <= nx_sub,
                1 <= ny_sub,
        ;
        vstd::arithmetic::div_mod::lemma_mod_multiples_basic(
            rounds,
            (nx_sub as int) * (ny_sub as int),
        );
    }
    Vector {
        x: fx::wide_div(sx, count as i128),
        y: fx::wide_div(sy, count as i128),
        z: fx::wide_div(sz, count as i128),
    }
}

/// Renders the raster with the adaptive estimator per pixel, the mean
/// clamped. On the first sink failure the render bracket is still closed
/// and that first error is returned.
pub fn render_scene_supersampling_grid_adaptive<B: RenderBackend>(
    environment: &Environment,
    half_width: i64,
    half_height: i64,
    nx: u32,
    ny: u32,
    nx_sub: u32,
    ny_sub: u32,
    variance: i64,
    backend: &mut B,
) -> (r: Result<(), RenderError>)
    requires
        1 <= nx_sub <= 4096,
        1 <= ny_sub <= 4096,
{
    let pixel_width = fx::fx_div(fx::fx_mul(2 * SCALE, half_width), fx::fx_from_u32(nx));
    let pixel_height = fx::fx_div(fx::fx_mul(2 * SCALE, half_height), fx::fx_from_u32(ny));

    let pixel_sub_width = fx::fx_div(pixel_width, fx::fx_from_u32(nx_sub));
    let pixel_sub_height = fx::fx_div(pixel_height, fx::fx_from_u32(ny_sub));

    backend.render_size(nx, ny);

    match backend.start_render() {
        Ok(()) => {},
        Err(e) => {
            return Err(e);
        },
    }

    let mut y = half_height;

    let mut y_index: u32 = 0;
    #[verifier::loop_isolation(false)]
    while y_index < ny
        decreases ny - y_index,
    {
        let mut x = fx::fx_neg(half_width);
        let mut x_index: u32 = 0;
        #[verifier::loop_isolation(false)]
        while x_index < nx
            decreases nx - x_index,
        {
            let x1 = fx::fx_sub(x, fx::fx_mul(HALF, pixel_width));
            let y1 = fx::fx_sub(y, fx::fx_mul(HALF, pixel_height));

            let mean = adaptive_pixel(
                environment,
                x1,
                y1,
                pixel_sub_width,
                pixel_sub_height,
                nx_sub,
                ny_sub,
                variance,
            );

            match backend.put_pixel(x_index, y_index, &mean.clip()) {
                Ok(()) => {},
                Err(e) => {
                    let _ = backend.finish_render();
                    return Err(e);
                },
            }
            x = fx::fx_add(x, pixel_width);
            x_index = x_index + 1;
        }
        y = fx::fx_sub(y, pixel_height);
        y_index = y_index + 1;
    }

    backend.finish_render()
}

} // verus!
