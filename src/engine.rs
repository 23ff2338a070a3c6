//! The chaos game: a point wanders half-way towards randomly chosen vertices
//! of a triangle, and every point it reaches is plotted.
use vstd::prelude::*;
use crate::barycentric::{
    Barycentric, OutOfBoundsError, WEIGHT_TOTAL, in_hull, lands_in, lemma_in_hull, lemma_toward_outside_center, outside_center, pixel_index,
    plot, plotted, weighted_x, weighted_y,
};
use crate::canvas::{Canvas, blank, canvas_pixels, canvas_size, foreground, in_grid};
use crate::geometry::{DegenerateGeometryError, Triangle, is_equilateral};
use crate::random::{draw_at_most, draw_below, seeded_rng};

verus! {

/// Every vertex choice names a vertex: 0, 1 or 2.
pub open spec fn valid_choices(choices: Seq<u8>) -> bool {
    forall|i: int| 0 <= i < choices.len() ==> #[trigger] choices[i] < 3
}

/// The point reached from `start` after moving half-way towards each vertex
/// of `choices` in turn.
pub open spec fn orbit(start: Barycentric, choices: Seq<u8>) -> Barycentric
    decreases choices.len(),
{
    if choices.len() == 0 {
        start
    } else {
        orbit(start, choices.drop_last()).spec_toward(choices.last() as int)
    }
}

/// The pixels of a `width` by `height` canvas that a game from `start`
/// plots while it follows `choices`: the pixel of every point after the
/// start that lies on the canvas.
pub open spec fn lit(t: Triangle, width: u32, height: u32, start: Barycentric, choices: Seq<u8>) -> Set<(u32, u32)>
    decreases choices.len(),
{
    if choices.len() == 0 {
        Set::empty()
    } else {
        let before = lit(t, width, height, start, choices.drop_last());
        let p = orbit(start, choices);
        if lands_in(t, p, width, height) {
            before.insert(pixel_index(t, p))
        } else {
            before
        }
    }
}

/// `pixels` with every position of `marked` set to the foreground colour.
pub open spec fn painted(pixels: Map<(u32, u32), (u8, u8, u8)>, marked: Set<(u32, u32)>) -> Map<(u32, u32), (u8, u8, u8)> {
    Map::new(
        |q: (u32, u32)| pixels.dom().contains(q),
        |q: (u32, u32)|
            if marked.contains(q) {
                foreground()
            } else {
                pixels[q]
            },
    )
}

/// The state of a game as its contracts see it.
pub struct GameView {
    pub triangle: Triangle,
    pub width: u32,
    pub height: u32,
    pub iterations: u32,
    /// The point the game started from; it is never plotted.
    pub start: Barycentric,
    /// The vertices chosen so far, one per move.
    pub choices: Seq<u8>,
    /// The current point.
    pub point: Barycentric,
}

/// A view of a consistent game: the current point is where the chosen moves
/// lead from the start, and no more moves were made than configured.
pub open spec fn consistent(v: GameView) -> bool {
    &&& v.triangle.wf()
    &&& v.start.wf()
    &&& valid_choices(v.choices)
    &&& v.choices.len() <= v.iterations
    &&& v.point == orbit(v.start, v.choices)
}

/// A chaos game on a triangle, for a canvas of a given size, that runs a
/// given number of moves with its own seeded random generator.
pub struct Sierpinski {
    triangle: Triangle,
    rng: rand::rngs::StdRng,
    iterations: u32,
    width: u32,
    height: u32,
    point: Barycentric,
    done: u32,
    start: Ghost<Barycentric>,
    choices: Ghost<Seq<u8>>,
}

impl View for Sierpinski {
    type V = GameView;

    closed spec fn view(&self) -> GameView {
        GameView {
            triangle: self.triangle,
            width: self.width,
            height: self.height,
            iterations: self.iterations,
            start: self.start@,
            choices: self.choices@,
            point: self.point,
        }
    }
}

/// The orbit of a point of the triangle stays a point of the triangle.
pub proof fn lemma_orbit_wf(start: Barycentric, choices: Seq<u8>)
    requires
        start.wf(),
        valid_choices(choices),
    ensures
        orbit(start, choices).wf(),
    decreases choices.len(),
{
    if choices.len() > 0 {
        lemma_orbit_wf(start, choices.drop_last());
        assert(choices[choices.len() - 1] < 3);
    }
}

/// One more move extends the orbit by a half-way step and the plotted set
/// by the pixel of the new point, when it lies on the canvas.
proof fn lemma_lit_push(t: Triangle, width: u32, height: u32, start: Barycentric, choices: Seq<u8>, k: u8)
    ensures
        orbit(start, choices.push(k)) == orbit(start, choices).spec_toward(k as int),
        lit(t, width, height, start, choices.push(k)) == (if lands_in(
            t,
            orbit(start, choices.push(k)),
            width,
            height,
        ) {
            lit(t, width, height, start, choices).insert(pixel_index(t, orbit(start, choices.push(k))))
        } else {
            lit(t, width, height, start, choices)
        }),
{
    assert(choices.push(k).drop_last() =~= choices);
}

/// Painting one more position of the canvas is setting that pixel.
proof fn lemma_painted_insert(pixels: Map<(u32, u32), (u8, u8, u8)>, marked: Set<(u32, u32)>, q: (u32, u32))
    requires
        pixels.dom().contains(q),
    ensures
        painted(pixels, marked.insert(q)) == painted(pixels, marked).insert(q, foreground()),
{
    assert(painted(pixels, marked.insert(q)) =~= painted(pixels, marked).insert(q, foreground()));
}

/// Every point of a game lies in the triangle: the start, which is a point
/// of the triangle, and each point reached after any number of moves.
pub proof fn lemma_orbit_in_hull(t: Triangle, start: Barycentric, choices: Seq<u8>)
    requires
        start.wf(),
        valid_choices(choices),
    ensures
        forall|i: int|
            0 <= i <= choices.len() ==> in_hull(
                t,
                weighted_x(t, #[trigger] orbit(start, choices.take(i))),
                weighted_y(t, orbit(start, choices.take(i))),
            ),
{
    assert forall|i: int| 0 <= i <= choices.len() implies in_hull(
        t,
        weighted_x(t, #[trigger] orbit(start, choices.take(i))),
        weighted_y(t, orbit(start, choices.take(i))),
    ) by {
        let prefix = choices.take(i);
        assert(valid_choices(prefix)) by {
            assert forall|j: int| 0 <= j < prefix.len() implies #[trigger] prefix[j] < 3 by {
                assert(prefix[j] == choices[j]);
            }
        }
        lemma_orbit_wf(start, prefix);
        lemma_in_hull(t, orbit(start, prefix));
    }
}

/// After its first move a game never enters the central triangle, the one
/// whose corners are the midpoints of the edges: that is the gap of the
/// Sierpinski pattern.
pub proof fn lemma_orbit_avoids_center(start: Barycentric, choices: Seq<u8>)
    requires
        start.wf(),
        valid_choices(choices),
    ensures
        forall|i: int| 1 <= i <= choices.len() ==> outside_center(#[trigger] orbit(start, choices.take(i))),
{
    assert forall|i: int| 1 <= i <= choices.len() implies outside_center(#[trigger] orbit(start, choices.take(i))) by {
        let prefix = choices.take(i);
        let before = choices.take(i - 1);
        assert(prefix.drop_last() =~= before);
        assert(valid_choices(before)) by {
            assert forall|j: int| 0 <= j < before.len() implies #[trigger] before[j] < 3 by {
                assert(before[j] == choices[j]);
            }
        }
        lemma_orbit_wf(start, before);
        assert(prefix.last() == choices[i - 1]);
        lemma_toward_outside_center(orbit(start, before), prefix.last() as int);
    }
}

/// A game that makes no move plots nothing: the canvas keeps its background.
pub proof fn lemma_no_moves_blank(t: Triangle, width: u32, height: u32, start: Barycentric)
    ensures
        painted(blank(width, height), lit(t, width, height, start, Seq::empty())) == blank(width, height),
{
    assert(painted(blank(width, height), lit(t, width, height, start, Seq::empty())) =~= blank(width, height));
}

impl Sierpinski {
    /// The current point of a game lies in its triangle.
    pub proof fn lemma_point_in_hull(&self)
        requires
            self.wf(),
        ensures
            in_hull(self@.triangle, weighted_x(self@.triangle, self@.point), weighted_y(self@.triangle, self@.point)),
    {
        lemma_orbit_wf(self.start@, self.choices@);
        lemma_in_hull(self.triangle, self.point);
    }
}

impl Sierpinski {
    /// The game is consistent.
    pub closed spec fn wf(&self) -> bool {
        &&& consistent(self@)
        &&& self.done == self.choices@.len()
    }

    /// Two uniform draws `r1` in `[0, WEIGHT_TOTAL]` and `r2` in
    /// `[0, WEIGHT_TOTAL - r1]`: the barycentric coordinates of a point of
    /// the triangle.
    pub fn random_barycentric_coordinates(&mut self) -> (r: (u64, u64))
        requires
            old(self).wf(),
        ensures
            final(self).wf(),
            final(self)@ == old(self)@,
            r.0 <= WEIGHT_TOTAL,
            r.1 <= WEIGHT_TOTAL - r.0,
    {
        let r1 = draw_at_most(&mut self.rng, WEIGHT_TOTAL);
        let r2 = draw_at_most(&mut self.rng, WEIGHT_TOTAL - r1);
        (r1, r2)
    }

    /// A random point of the triangle, `a + u * (b - a) + v * (c - a)` for
    /// the coordinates `(u, v)` drawn above.
    pub fn get_triangle_random_point(&mut self) -> (r: Barycentric)
        requires
            old(self).wf(),
        ensures
            final(self).wf(),
            final(self)@ == old(self)@,
            r.wf(),
            exists|r1: u64, r2: u64|
                r1 <= WEIGHT_TOTAL && r2 <= WEIGHT_TOTAL - r1 && r == Barycentric::spec_from_draws(
                    r1 as int,
                    r2 as int,
                ),
    {
        let (u, v) = self.random_barycentric_coordinates();
        Barycentric::from_draws(u, v)
    }

    /// A vertex drawn uniformly: 0 for `a`, 1 for `b`, 2 for `c`.
    pub fn get_random_vertex(&mut self) -> (r: u8)
        requires
            old(self).wf(),
        ensures
            final(self).wf(),
            final(self)@ == old(self)@,
            r < 3,
    {
        draw_below(&mut self.rng, 3) as u8
    }

    /// A game on `triangle` for a `width` by `height` canvas that will make
    /// `iterations` moves, with its generator seeded by `seed`. Its start is a
    /// random point of the triangle.
    pub fn new(triangle: Triangle, width: u32, height: u32, iterations: u32, seed: u64) -> (r: Sierpinski)
        requires
            triangle.wf(),
        ensures
            r.wf(),
            r@.triangle == triangle,
            r@.width == width,
            r@.height == height,
            r@.iterations == iterations,
            r@.choices.len() == 0,
            r@.point == r@.start,
            exists|r1: u64, r2: u64|
                r1 <= WEIGHT_TOTAL && r2 <= WEIGHT_TOTAL - r1 && r@.start == Barycentric::spec_from_draws(
                    r1 as int,
                    r2 as int,
                ),
    {
        let corner = Barycentric { wa: WEIGHT_TOTAL, wb: 0, wc: 0 };
        let mut game = Sierpinski {
            triangle,
            rng: seeded_rng(seed),
            iterations,
            width,
            height,
            point: corner,
            done: 0,
            start: Ghost(corner),
            choices: Ghost(Seq::empty()),
        };
        let p = game.get_triangle_random_point();
        game.point = p;
        game.start = Ghost(p);
        game
    }

    /// A game on the equilateral triangle of side `size` for a `size` by
    /// `size` canvas; no game for a size of zero.
    pub fn init(size: u32, iterations: u32, seed: u64) -> (r: Result<Sierpinski, DegenerateGeometryError>)
        ensures
            r is Ok <==> size > 0,
            r is Ok ==> ({
                let g = r->Ok_0;
                &&& g.wf()
                &&& is_equilateral(g@.triangle, size as int)
                &&& g@.width == size && g@.height == size
                &&& g@.iterations == iterations
                &&& g@.choices.len() == 0
                &&& g@.point == g@.start
            }),
    {
        let triangle = Triangle::new(size)?;
        Ok(Sierpinski::new(triangle, size, size, iterations, seed))
    }

    /// Moves the current point half-way towards vertex `k` and plots the
    /// point reached onto `canvas`.
    pub fn step_toward(&mut self, canvas: &mut Canvas, k: u8) -> (r: Result<(u32, u32), OutOfBoundsError>)
        requires
            old(self).wf(),
            old(self)@.choices.len() < old(self)@.iterations,
            k < 3,
        ensures
            final(self).wf(),
            final(self)@ == (GameView {
                choices: old(self)@.choices.push(k),
                point: old(self)@.point.spec_toward(k as int),
                ..old(self)@
            }),
            plotted(*old(canvas), *final(canvas), old(self)@.triangle, final(self)@.point, r),
    {
        proof {
            lemma_orbit_wf(self.start@, self.choices@);
            lemma_lit_push(self.triangle, self.width, self.height, self.start@, self.choices@, k);
        }
        let next = self.point.toward(k);
        self.point = next;
        self.done = self.done + 1;
        self.choices = Ghost(self.choices@.push(k));
        assert(valid_choices(self.choices@)) by {
            assert forall|i: int| 0 <= i < self.choices@.len() implies #[trigger] self.choices@[i] < 3 by {
                if i < self.choices@.len() - 1 {
                    assert(self.choices@[i] == old(self).choices@[i]);
                }
            }
        }
        plot(canvas, &self.triangle, next)
    }

    /// Makes one move of the game towards a random vertex and plots the point
    /// reached onto `canvas`.
    pub fn step(&mut self, canvas: &mut Canvas) -> (r: Result<(u32, u32), OutOfBoundsError>)
        requires
            old(self).wf(),
            old(self)@.choices.len() < old(self)@.iterations,
        ensures
            final(self).wf(),
            exists|k: u8|
                k < 3 && final(self)@ == (GameView {
                    choices: #[trigger] old(self)@.choices.push(k),
                    point: old(self)@.point.spec_toward(k as int),
                    ..old(self)@
                }),
            plotted(*old(canvas), *final(canvas), old(self)@.triangle, final(self)@.point, r),
    {
        let k = self.get_random_vertex();
        self.step_toward(canvas, k)
    }

    /// The number of moves made so far.
    pub fn iteration(&self) -> (r: u32)
        requires
            self.wf(),
        ensures
            r == self@.choices.len(),
    {
        self.done
    }

    /// The number of moves the game makes in all.
    pub fn iterations(&self) -> (r: u32)
        ensures
            r == self@.iterations,
    {
        self.iterations
    }

    /// All moves have been made.
    pub fn is_finished(&self) -> (r: bool)
        requires
            self.wf(),
        ensures
            r == (self@.choices.len() == self@.iterations),
    {
        self.done == self.iterations
    }

    /// The current point.
    pub fn point(&self) -> (r: Barycentric)
        ensures
            r == self@.point,
    {
        self.point
    }

    /// The triangle of the game.
    pub fn triangle(&self) -> (r: Triangle)
        ensures
            r == self@.triangle,
    {
        self.triangle
    }

    /// Makes every remaining move onto a new canvas of the game's size, and
    /// returns it: on a fresh game, the pixels that the moves plot are set to
    /// the foreground colour and all others keep the background colour.
    pub fn gen_fractal(self) -> (r: Canvas)
        requires
            self.wf(),
            self@.choices.len() == 0,
            3 * self@.width * self@.height <= usize::MAX,
        ensures
            canvas_size(r) == (self@.width, self@.height),
            exists|choices: Seq<u8>|
                choices.len() == self@.iterations && valid_choices(choices) && canvas_pixels(r) == painted(
                    blank(self@.width, self@.height),
                    lit(self@.triangle, self@.width, self@.height, self@.start, choices),
                ),
            self@.iterations == 0 ==> canvas_pixels(r) == blank(self@.width, self@.height),
    {
        let ghost v0 = self@;
        let mut game = self;
        let mut canvas = Canvas::blank_image(game.width, game.height);
        proof {
            lemma_no_moves_blank(v0.triangle, v0.width, v0.height, v0.start);
        }
        while game.done < game.iterations
            invariant
                game.wf(),
                game@.triangle == v0.triangle,
                game@.width == v0.width,
                game@.height == v0.height,
                game@.iterations == v0.iterations,
                game@.start == v0.start,
                canvas_size(canvas) == (v0.width, v0.height),
                canvas_pixels(canvas) == painted(
                    blank(v0.width, v0.height),
                    lit(v0.triangle, v0.width, v0.height, v0.start, game@.choices),
                ),
            decreases game@.iterations - game@.choices.len(),
        {
            let ghost before = game@.choices;
            let _ = game.step(&mut canvas);
            proof {
                let k = game@.choices.last();
                assert(game@.choices == before.push(k));
                lemma_lit_push(v0.triangle, v0.width, v0.height, v0.start, before, k);
                let p = orbit(v0.start, game@.choices);
                if lands_in(v0.triangle, p, v0.width, v0.height) {
                    let q = pixel_index(v0.triangle, p);
                    assert(in_grid(q, v0.width, v0.height));
                    lemma_painted_insert(
                        blank(v0.width, v0.height),
                        lit(v0.triangle, v0.width, v0.height, v0.start, before),
                        q,
                    );
                }
            }
        }
        canvas
    }
}

} // verus!
