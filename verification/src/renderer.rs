//! Pixel scheduling: which pixels are computed, in which order, and when a
//! rendering is over.

use vstd::prelude::*;
use crate::colors::Color;
use crate::ray_algorithm::{RenderStrategy, StandardRenderStrategy};
use crate::result::RaytracerError;
use crate::scene::Scene;
use vstd::arithmetic::div_mod::{
    lemma_fundamental_div_mod,
    lemma_fundamental_div_mod_converse,
    lemma_mod_bound,
};

verus! {

/// One pixel of the picture.  `x` and `y` count from zero, `y` from the top.
#[derive(Debug)]
pub struct Pixel {
    pub x: u32,
    pub y: u32,
    pub color: Color,
}

impl Pixel {
    /// The pixel of column `x` and row `y`, of the given color.
    pub fn new(x: u32, y: u32, color: Color) -> (p: Pixel)
        ensures
            p.x == x,
            p.y == y,
            p.color == color,
    {
        Pixel { x, y, color }
    }
}

/// The size of the canvas and the way its pixels are sampled.
#[derive(Clone, Copy, Debug)]
pub struct RenderConfiguration {
    pub canvas_width: u32,
    pub canvas_height: u32,
    pub render_strategy: RenderStrategy,
}

impl Default for RenderConfiguration {
    /// A canvas of 1024 by 576 pixels, one ray through each.
    fn default() -> (config: RenderConfiguration)
        ensures
            config.canvas_width == 1024,
            config.canvas_height == 576,
            config.render_strategy is Standard,
    {
        RenderConfiguration {
            canvas_width: 1024,
            canvas_height: 576,
            render_strategy: RenderStrategy::Standard(StandardRenderStrategy),
        }
    }
}

/// The pixels of the area that is `width` columns wide and `height` rows
/// high and has its first pixel in column `x` of row `y`, in row-major
/// order: the pixel of index `k` stands in column `x + k % width` of row
/// `y + k / width`.
pub open spec fn area_pixels(x: int, y: int, width: int, height: int) -> Seq<(u32, u32)> {
    Seq::new(
        (width * height) as nat,
        |k: int| ((x + k % width) as u32, (y + k / width) as u32),
    )
}

/// The pixels of a canvas in row-major order: the pixel of index `k` stands
/// in column `k % width` of row `k / width`.
pub open spec fn row_major(width: int, height: int) -> Seq<(u32, u32)> {
    area_pixels(0, 0, width, height)
}

/// Walks over a rectangular area of the canvas, row by row, one pixel per
/// step.
pub struct AreaRenderIterator {
    config: RenderConfiguration,
    area_x_origin: u32,
    area_y_origin: u32,
    area_width: u32,
    area_height: u32,
    /// The column of the cursor, counted from the first column of the area.
    column: u32,
    /// The row of the cursor, counted from the first row of the area.
    row: u32,
}

impl AreaRenderIterator {
    /// The area holds no pixel whose column or row is beyond the largest
    /// number that a coordinate can be, and the cursor stands on a pixel of
    /// the area, or at the start of the row after the last one.
    #[verifier::type_invariant]
    spec fn cursor_in_area(&self) -> bool {
        &&& self.area_x_origin + self.area_width <= u32::MAX + 1
        &&& self.area_y_origin + self.area_height <= u32::MAX + 1
        &&& self.row <= self.area_height
        &&& self.row < self.area_height ==> self.column < self.area_width
        &&& self.row == self.area_height ==> self.column == 0
    }

    /// The configuration that the iterator was made with.
    pub closed spec fn spec_config(&self) -> RenderConfiguration {
        self.config
    }

    /// The number of pixels that the walk has left behind.
    pub closed spec fn visited(&self) -> int {
        self.row * self.area_width + self.column
    }

    /// The pixels of the whole area, in the order of the walk.
    pub closed spec fn area(&self) -> Seq<(u32, u32)> {
        area_pixels(
            self.area_x_origin as int,
            self.area_y_origin as int,
            self.area_width as int,
            self.area_height as int,
        )
    }

    /// The pixels still to come, in the order in which they come: those of
    /// the area but for the ones that the walk has left behind.
    pub open spec fn remaining(&self) -> Seq<(u32, u32)> {
        self.area().skip(self.visited())
    }

    /// The width of the area times its height.
    pub closed spec fn spec_total_pixels(&self) -> int {
        self.area_width * self.area_height
    }

    /// An iterator over the area that is `area_width` columns wide and
    /// `area_height` rows high and has its first pixel in column `area_x`
    /// of row `area_y`.  The walk goes through the rows of the area from
    /// the first to the last, and through each row from its first column
    /// to its last.
    pub fn new(
        config: RenderConfiguration,
        area_x: u32,
        area_y: u32,
        area_width: u32,
        area_height: u32,
    ) -> (iter: AreaRenderIterator)
        requires
            area_x + area_width <= u32::MAX + 1,
            area_y + area_height <= u32::MAX + 1,
        ensures
            iter.spec_config() == config,
            iter.area() == area_pixels(
                area_x as int,
                area_y as int,
                area_width as int,
                area_height as int,
            ),
            iter.visited() == 0,
            iter.remaining() == iter.area(),
            iter.remaining().len() == area_width * area_height,
            iter.spec_total_pixels() == area_width * area_height,
    {
        let row: u32 = if area_width == 0 {
            area_height
        } else {
            0
        };
        assert(row * area_width == 0) by (nonlinear_arith)
            requires
                row == 0 || area_width == 0,
        ;
        assert(area_width * area_height >= 0) by (nonlinear_arith)
            requires
                area_width >= 0,
                area_height >= 0,
        ;
        AreaRenderIterator {
            config,
            area_x_origin: area_x,
            area_y_origin: area_y,
            area_width,
            area_height,
            column: 0,
            row,
        }
    }

    /// An iterator over the whole canvas.
    pub fn with_full_area(config: RenderConfiguration) -> (iter: AreaRenderIterator)
        ensures
            iter.spec_config() == config,
            iter.area() == row_major(config.canvas_width as int, config.canvas_height as int),
            iter.visited() == 0,
            iter.remaining() == iter.area(),
            iter.remaining().len() == config.canvas_width * config.canvas_height,
            iter.spec_total_pixels() == config.canvas_width * config.canvas_height,
    {
        let area_width = config.canvas_width;
        let area_height = config.canvas_height;
        Self::new(config, 0, 0, area_width, area_height)
    }

    /// The configuration that the iterator was made with.
    #[verifier::when_used_as_spec(spec_config)]
    pub fn config(&self) -> (config: RenderConfiguration)
        ensures
            config == self.spec_config(),
    {
        self.config
    }

    /// The number of pixels of the area: its width times its height.
    pub fn total_pixels(&self) -> (n: usize)
        requires
            self.spec_total_pixels() <= usize::MAX,
        ensures
            n == self.spec_total_pixels(),
            n == self.area().len(),
    {
        let width: u64 = self.area_width as u64;
        let height: u64 = self.area_height as u64;
        assert(0 <= width * height <= 0xFFFF_FFFF * 0xFFFF_FFFF) by (nonlinear_arith)
            requires
                0 <= width <= 0xFFFF_FFFF,
                0 <= height <= 0xFFFF_FFFF,
        ;
        (width * height) as usize
    }

    /// Computes the next pixel, if one is left.  The color comes from
    /// `render`, which is called once, with the column and the row of the
    /// pixel.  Whatever `render` answers, the walk moves on: an error
    /// stands for its pixel in the sequence.
    pub fn next_with<R: FnOnce(u32, u32) -> Result<Color, RaytracerError>>(
        &mut self,
        render: R,
    ) -> (item: Option<Result<Pixel, RaytracerError>>)
        requires
            old(self).remaining().len() > 0 ==> render.requires(old(self).remaining()[0]),
        ensures
            final(self).spec_config() == old(self).spec_config(),
            final(self).spec_total_pixels() == old(self).spec_total_pixels(),
            final(self).area() == old(self).area(),
            old(self).remaining().len() == 0 ==> {
                &&& item is None
                &&& final(self).visited() == old(self).visited()
                &&& final(self).remaining() == old(self).remaining()
            },
            old(self).remaining().len() > 0 ==> {
                &&& produced(old(self).remaining()[0], render, item)
                &&& final(self).visited() == old(self).visited() + 1
                &&& final(self).remaining() == old(self).remaining().skip(1)
            },
    {
        proof {
            use_type_invariant(&*self);
            lemma_cursor(
                self.area_x_origin,
                self.area_y_origin,
                self.area_width,
                self.area_height,
                self.column,
                self.row,
            );
        }
        if self.row >= self.area_height {
            return None;
        }
        let x: u32 = self.area_x_origin + self.column;
        let y: u32 = self.area_y_origin + self.row;
        let ghost all = self.area();
        let ghost at = self.visited();
        assert(self.remaining()[0] == all[at]);
        assert(all.skip(at).skip(1) =~= all.skip(at + 1));
        let result = render(x, y);
        if self.column + 1 >= self.area_width {
            self.column = 0;
            self.row = self.row + 1;
        } else {
            self.column = self.column + 1;
        }
        match result {
            Ok(color) => Some(Ok(Pixel::new(x, y, color))),
            Err(error) => Some(Err(error)),
        }
    }
}

/// Where the cursor of a walk stands: with `column` columns of row `row`
/// behind it, the walk has left `row * width + column` pixels behind.  While
/// the row is one of the area, that many are fewer than the area has
/// pixels, and the next pixel is the one in that column of that row.  Once
/// the rows are over, no pixel is left.
proof fn lemma_cursor(x: u32, y: u32, width: u32, height: u32, column: u32, row: u32)
    requires
        x + width <= u32::MAX + 1,
        y + height <= u32::MAX + 1,
        row <= height,
        row < height ==> column < width,
        row == height ==> column == 0,
    ensures
        0 <= row * width + column <= width * height,
        area_pixels(x as int, y as int, width as int, height as int).len() == width * height,
        row == height ==> row * width + column == width * height,
        row < height ==> {
            &&& row * width + column < width * height
            &&& area_pixels(x as int, y as int, width as int, height as int)[row * width
                + column] == ((x + column) as u32, (y + row) as u32)
            &&& column + 1 >= width ==> (row + 1) * width + 0 == row * width + column + 1
        },
{
    let w = width as int;
    let h = height as int;
    let at = row * w + column;
    assert(0 <= row * w && 0 <= w * h) by (nonlinear_arith)
        requires
            0 <= row,
            0 <= w,
            0 <= h,
    ;
    if row == height {
        assert(row * w == w * h) by (nonlinear_arith)
            requires
                row == h,
        ;
    } else {
        assert(at < w * h && (row + 1) * w == row * w + w) by (nonlinear_arith)
            requires
                at == row * w + column,
                0 <= column < w,
                0 <= row < h,
        ;
        lemma_fundamental_div_mod_converse(at, w, row as int, column as int);
    }
}

/// `item` is what `render` made of the pixel at `at`: the pixel with the
/// color that `render` gave for it, or the error that `render` gave.
pub open spec fn produced<R: FnOnce(u32, u32) -> Result<Color, RaytracerError>>(
    at: (u32, u32),
    render: R,
    item: Option<Result<Pixel, RaytracerError>>,
) -> bool {
    match item {
        Some(Ok(pixel)) => pixel.x == at.0 && pixel.y == at.1 && render.ensures(
            at,
            Ok(pixel.color),
        ),
        Some(Err(error)) => render.ensures(at, Err(error)),
        None => false,
    }
}

/// The units of work of a parallel rendering: one for each pixel of the
/// canvas, in row-major order.  The units do not depend on one another, so
/// they may be computed in any order and at the same time.
#[derive(Clone, Copy, Debug)]
pub struct ParallelRenderer {
    config: RenderConfiguration,
}

impl ParallelRenderer {
    /// The configuration that the units of work were made from.
    pub closed spec fn spec_config(&self) -> RenderConfiguration {
        self.config
    }

    /// The pixels of the units of work, by the index of the unit.
    pub open spec fn tasks(&self) -> Seq<(u32, u32)> {
        row_major(self.spec_config().canvas_width as int, self.spec_config().canvas_height as int)
    }

    /// The configuration that the units of work were made from.
    #[verifier::when_used_as_spec(spec_config)]
    pub fn config(&self) -> (config: RenderConfiguration)
        ensures
            config == self.spec_config(),
    {
        self.config
    }

    /// The number of units of work: the width of the canvas times its
    /// height.
    pub fn task_count(&self) -> (n: u64)
        ensures
            n == self.tasks().len(),
            n == self.spec_config().canvas_width * self.spec_config().canvas_height,
    {
        let width: u64 = self.config.canvas_width as u64;
        let height: u64 = self.config.canvas_height as u64;
        assert(width * height <= 0xFFFF_FFFF * 0xFFFF_FFFF) by (nonlinear_arith)
            requires
                0 <= width <= 0xFFFF_FFFF,
                0 <= height <= 0xFFFF_FFFF,
        ;
        width * height
    }

    /// The pixel of the unit of work of the given index.
    pub fn task(&self, index: u64) -> (at: (u32, u32))
        requires
            index < self.tasks().len(),
        ensures
            at == self.tasks()[index as int],
            at.0 < self.spec_config().canvas_width,
            at.1 < self.spec_config().canvas_height,
            index == at.1 * self.spec_config().canvas_width + at.0,
    {
        let width: u64 = self.config.canvas_width as u64;
        proof {
            lemma_row_major_entry(
                self.config.canvas_width,
                self.config.canvas_height,
                index as int,
            );
        }
        ((index % width) as u32, (index / width) as u32)
    }

    /// Carries out one unit of work: the color of its pixel comes from
    /// `render`, which is called once, with the column and the row of the
    /// pixel.
    pub fn render_task<R: FnOnce(u32, u32) -> Result<Color, RaytracerError>>(
        &self,
        index: u64,
        render: R,
    ) -> (item: Result<Pixel, RaytracerError>)
        requires
            index < self.tasks().len(),
            render.requires(self.tasks()[index as int]),
        ensures
            produced(self.tasks()[index as int], render, Some(item)),
    {
        let (x, y) = self.task(index);
        match render(x, y) {
            Ok(color) => Ok(Pixel::new(x, y, color)),
            Err(error) => Err(error),
        }
    }
}

/// The units of work that render the canvas of `config` in parallel.
pub fn renderer_parallel(config: RenderConfiguration) -> (renderer: ParallelRenderer)
    ensures
        renderer.spec_config() == config,
{
    ParallelRenderer { config }
}

/// The iterator that renders the canvas of `config` pixel after pixel, in
/// row-major order.
pub fn renderer_sequential(config: RenderConfiguration) -> (iter: AreaRenderIterator)
    ensures
        iter.spec_config() == config,
        iter.remaining() == row_major(config.canvas_width as int, config.canvas_height as int),
        iter.remaining().len() == config.canvas_width * config.canvas_height,
        iter.spec_total_pixels() == config.canvas_width * config.canvas_height,
{
    AreaRenderIterator::with_full_area(config)
}

/// Where the pixels of a rendering come from.
pub enum Producer {
    /// They are computed one after the other, on demand.
    Sequential(AreaRenderIterator),
    /// They are computed by independent units of work and delivered in
    /// whatever order the units end.
    Parallel(ParallelRenderer),
}

/// The producer `after` is of the kind of the producer `before`, and the
/// same one where they are parallel: a sequential producer moves on as its
/// pixels are computed, the units of work of a parallel one stay.
pub open spec fn same_kind(before: Producer, after: Producer) -> bool {
    match before {
        Producer::Sequential(_) => after is Sequential,
        Producer::Parallel(_) => after == before,
    }
}

/// A rendering in progress.  It is over with the first call that finds no
/// pixel left, and stays so.
pub struct RenderIterator {
    producer: Producer,
    awaited: u64,
    done: bool,
}

impl RenderIterator {
    /// The producer of the pixels.
    pub closed spec fn spec_producer(&self) -> Producer {
        self.producer
    }

    /// The rendering is over: no pixel will come any more.
    pub closed spec fn finished(&self) -> bool {
        self.done
    }

    /// The pixels that a sequential rendering has still to compute, in
    /// their order.
    pub open spec fn remaining(&self) -> Seq<(u32, u32)> {
        match self.spec_producer() {
            Producer::Sequential(iter) => iter.remaining(),
            Producer::Parallel(_) => Seq::empty(),
        }
    }

    /// The number of pixels that a parallel rendering has still to deliver.
    pub closed spec fn spec_awaited(&self) -> u64 {
        self.awaited
    }

    /// The units of work of a parallel rendering, `None` for a sequential
    /// one.
    pub fn parallel_tasks(&self) -> (tasks: Option<ParallelRenderer>)
        ensures
            tasks == (match self.spec_producer() {
                Producer::Sequential(_) => None,
                Producer::Parallel(renderer) => Some(renderer),
            }),
    {
        match &self.producer {
            Producer::Sequential(_) => None,
            Producer::Parallel(renderer) => Some(*renderer),
        }
    }

    /// Whether the rendering is over.
    #[verifier::when_used_as_spec(finished)]
    pub fn is_finished(&self) -> (r: bool)
        ensures
            r == self.finished(),
    {
        self.done
    }

    /// The number of pixels that a parallel rendering has still to deliver.
    #[verifier::when_used_as_spec(spec_awaited)]
    pub fn awaited(&self) -> (n: u64)
        ensures
            n == self.spec_awaited(),
    {
        self.awaited
    }

    /// The next pixel of a sequential rendering.
    ///
    /// While pixels are left, the next one is computed, its color coming
    /// from `render`.  The first call that finds none left ends the
    /// rendering and returns `None`, as does every later call.  A parallel
    /// rendering has no pixel to compute in this way.
    pub fn next_with<R: FnOnce(u32, u32) -> Result<Color, RaytracerError>>(
        &mut self,
        render: R,
    ) -> (item: Option<Result<Pixel, RaytracerError>>)
        requires
            !old(self).finished() && old(self).remaining().len() > 0 ==> render.requires(
                old(self).remaining()[0],
            ),
        ensures
            stepped(*old(self), render, item, *final(self)),
    {
        if self.done {
            return None;
        }
        let item = match &mut self.producer {
            Producer::Sequential(iter) => iter.next_with(render),
            Producer::Parallel(_) => None,
        };
        if item.is_none() {
            self.done = true;
        }
        item
    }

    /// Runs a sequential rendering to its end and returns what it
    /// produced: for each pixel that was left, in the order of the walk,
    /// what `render` made of it.
    pub fn collect_with<R: Fn(u32, u32) -> Result<Color, RaytracerError>>(
        &mut self,
        render: &R,
    ) -> (items: Vec<Result<Pixel, RaytracerError>>)
        requires
            forall|x: u32, y: u32| render.requires((x, y)),
        ensures
            collected(*old(self), *render, items@, *final(self)),
    {
        let mut items: Vec<Result<Pixel, RaytracerError>> = Vec::new();
        if self.done {
            return items;
        }
        let ghost all = self.remaining();
        loop
            invariant
                same_kind(old(self).spec_producer(), self.spec_producer()),
                self.spec_awaited() == old(self).spec_awaited(),
                forall|x: u32, y: u32| render.requires((x, y)),
                all == old(self).remaining(),
                !old(self).finished(),
                items@.len() <= all.len(),
                self.finished() ==> items@.len() == all.len(),
                self.remaining() == all.skip(items@.len() as int),
                forall|k: int|
                    0 <= k < items@.len() ==> produced(all[k], *render, Some(#[trigger] items@[k])),
            ensures
                collected(*old(self), *render, items@, *self),
            decreases all.len() - items@.len() + (if self.finished() { 0int } else { 1int }),
        {
            match self.next_with(render) {
                Some(item) => {
                    items.push(item);
                },
                None => {
                    break ;
                },
            }
        }
        items
    }

    /// The next pixel of a parallel rendering.
    ///
    /// While pixels are awaited, `receive` is called, once, to wait for the
    /// next one that a unit of work has sent.  The first call that awaits
    /// none, or to which `receive` answers that none will come, ends the
    /// rendering and returns `None`, as does every later call.  A
    /// sequential rendering awaits no pixel.
    pub fn next_delivered<R: FnOnce() -> Option<Result<Pixel, RaytracerError>>>(
        &mut self,
        receive: R,
    ) -> (item: Option<Result<Pixel, RaytracerError>>)
        requires
            !old(self).finished() && old(self).spec_awaited() > 0 ==> receive.requires(()),
        ensures
            delivered(*old(self), receive, item, *final(self)),
    {
        if self.done {
            return None;
        }
        if self.awaited == 0 {
            self.done = true;
            return None;
        }
        let item = receive();
        if item.is_none() {
            self.done = true;
        } else {
            self.awaited = self.awaited - 1;
        }
        item
    }

    /// Runs a parallel rendering to its end and returns the pixels that
    /// were delivered, in the order of their delivery: at most as many as
    /// were awaited, and as many unless `receive` gave up before.
    pub fn collect_delivered<R: Fn() -> Option<Result<Pixel, RaytracerError>>>(
        &mut self,
        receive: &R,
    ) -> (items: Vec<Result<Pixel, RaytracerError>>)
        requires
            receive.requires(()),
        ensures
            gathered(*old(self), *receive, items@, *final(self)),
    {
        let mut items: Vec<Result<Pixel, RaytracerError>> = Vec::new();
        loop
            invariant_except_break
                !old(self).finished() ==> !self.finished(),
            invariant
                self.spec_producer() == old(self).spec_producer(),
                receive.requires(()),
                old(self).finished() ==> self.finished() && items@.len() == 0,
                items@.len() + self.spec_awaited() == old(self).spec_awaited(),
                forall|k: int|
                    0 <= k < items@.len() ==> receive.ensures((), Some(#[trigger] items@[k])),
            ensures
                gathered(*old(self), *receive, items@, *self),
            decreases self.spec_awaited() + (if self.finished() { 0int } else { 1int }),
        {
            match self.next_delivered(receive) {
                Some(item) => {
                    items.push(item);
                },
                None => {
                    break ;
                },
            }
        }
        items
    }
}

/// One step of a sequential rendering, from `before` to `after`.
///
/// A rendering that is over, or that has no pixel left, gives `None` and is
/// over; nothing else changes.  Any other rendering gives what `render`
/// made of the first pixel that was left, and goes on with the rest.
pub open spec fn stepped<R: FnOnce(u32, u32) -> Result<Color, RaytracerError>>(
    before: RenderIterator,
    render: R,
    item: Option<Result<Pixel, RaytracerError>>,
    after: RenderIterator,
) -> bool {
    &&& same_kind(before.spec_producer(), after.spec_producer())
    &&& after.spec_awaited() == before.spec_awaited()
    &&& if before.finished() || before.remaining().len() == 0 {
        &&& item is None
        &&& after.finished()
        &&& after.remaining() == before.remaining()
    } else {
        &&& produced(before.remaining()[0], render, item)
        &&& !after.finished()
        &&& after.remaining() == before.remaining().skip(1)
    }
}

/// A sequential rendering run to its end, from `before` to `after`: it is
/// over, no pixel is left, and unless it was over before, `items` holds,
/// for each pixel that was left and in the order of the walk, what `render`
/// made of it.
pub open spec fn collected<R: Fn(u32, u32) -> Result<Color, RaytracerError>>(
    before: RenderIterator,
    render: R,
    items: Seq<Result<Pixel, RaytracerError>>,
    after: RenderIterator,
) -> bool {
    &&& same_kind(before.spec_producer(), after.spec_producer())
    &&& after.spec_awaited() == before.spec_awaited()
    &&& after.finished()
    &&& if before.finished() {
        &&& items.len() == 0
        &&& after.remaining() == before.remaining()
    } else {
        &&& items.len() == before.remaining().len()
        &&& after.remaining().len() == 0
        &&& forall|k: int|
            0 <= k < items.len() ==> produced(
                before.remaining()[k],
                render,
                Some(#[trigger] items[k]),
            )
    }
}

/// One step of a parallel rendering, from `before` to `after`.
///
/// A rendering that is over, or that awaits no pixel, gives `None`.  Any
/// other rendering gives what `receive` answers.  With a pixel, one pixel
/// less is awaited; with `None`, the rendering is over.
pub open spec fn delivered<R: FnOnce() -> Option<Result<Pixel, RaytracerError>>>(
    before: RenderIterator,
    receive: R,
    item: Option<Result<Pixel, RaytracerError>>,
    after: RenderIterator,
) -> bool {
    &&& after.spec_producer() == before.spec_producer()
    &&& if before.finished() || before.spec_awaited() == 0 {
        item is None
    } else {
        receive.ensures((), item)
    }
    &&& match item {
        Some(_) => !after.finished() && after.spec_awaited() == before.spec_awaited() - 1,
        None => after.finished() && after.spec_awaited() == before.spec_awaited(),
    }
}

/// A parallel rendering run to its end, from `before` to `after`: it is
/// over, `items` holds pixels that `receive` gave, as many as are no longer
/// awaited, and none where the rendering was over before.  Pixels are
/// still awaited at the end only where the rendering was over before, or
/// where `receive` answered that none will come.
pub open spec fn gathered<R: Fn() -> Option<Result<Pixel, RaytracerError>>>(
    before: RenderIterator,
    receive: R,
    items: Seq<Result<Pixel, RaytracerError>>,
    after: RenderIterator,
) -> bool {
    &&& after.spec_producer() == before.spec_producer()
    &&& after.finished()
    &&& before.finished() ==> items.len() == 0
    &&& items.len() + after.spec_awaited() == before.spec_awaited()
    &&& forall|k: int| 0 <= k < items.len() ==> receive.ensures((), Some(#[trigger] items[k]))
    &&& !before.finished() && after.spec_awaited() > 0 ==> receive.ensures(
        (),
        None::<Result<Pixel, RaytracerError>>,
    )
}

/// A rendering that runs a finalization once, with the first call that
/// finds the rendering over.
pub struct ProgressiveRenderIterator<F> {
    inner: RenderIterator,
    finally: Option<F>,
}

impl<F: FnOnce()> ProgressiveRenderIterator<F> {
    /// While the finalization is still to be run, it can be run.  This
    /// holds of every rendering that `render_scene_with_finally` returns,
    /// and every method keeps it so.
    pub closed spec fn wf(&self) -> bool {
        self.finally matches Some(f) ==> f.requires(())
    }

    /// The rendering that is decorated.
    pub closed spec fn rendering(&self) -> RenderIterator {
        self.inner
    }

    /// The finalization while it is still to be run; `None` once it ran.
    pub closed spec fn finalizer(&self) -> Option<F> {
        self.finally
    }

    /// The finalization ran.
    pub open spec fn finalized(&self) -> bool {
        self.finalizer() is None
    }

    /// The finalization ran in the step from `before` to `self`.
    pub open spec fn finalized_since(&self, before: Self) -> bool {
        &&& self.finalized()
        &&& before.finalizer() matches Some(f)
        &&& f.ensures((), ())
    }

    /// The units of work of a parallel rendering, `None` for a sequential
    /// one.
    pub fn parallel_tasks(&self) -> (tasks: Option<ParallelRenderer>)
        ensures
            tasks == (match self.rendering().spec_producer() {
                Producer::Sequential(_) => None,
                Producer::Parallel(renderer) => Some(renderer),
            }),
    {
        self.inner.parallel_tasks()
    }

    /// Whether the finalization ran.
    #[verifier::when_used_as_spec(finalized)]
    pub fn is_finalized(&self) -> (r: bool)
        ensures
            r == self.finalized(),
    {
        self.finally.is_none()
    }

    fn finalize(&mut self)
        requires
            old(self).wf(),
            !old(self).finalized(),
        ensures
            final(self).wf(),
            final(self).rendering() == old(self).rendering(),
            final(self).finalized_since(*old(self)),
    {
        match self.finally.take() {
            Some(f) => f(),
            None => {},
        }
    }

    /// The next pixel of a sequential rendering.
    ///
    /// While pixels are left, the next one is computed, its color coming
    /// from `render`.  The first call that finds none left runs the
    /// finalization and returns `None`.  Every later call returns `None`
    /// and does nothing else.
    pub fn next_with<R: FnOnce(u32, u32) -> Result<Color, RaytracerError>>(
        &mut self,
        render: R,
    ) -> (item: Option<Result<Pixel, RaytracerError>>)
        requires
            old(self).wf(),
            !old(self).finalized() && !old(self).rendering().finished() && old(
                self,
            ).rendering().remaining().len() > 0 ==> render.requires(
                old(self).rendering().remaining()[0],
            ),
        ensures
            final(self).wf(),
            old(self).finalized() ==> item is None && *final(self) == *old(self),
            !old(self).finalized() ==> {
                &&& stepped(old(self).rendering(), render, item, final(self).rendering())
                &&& item is Some ==> final(self).finalizer() == old(self).finalizer()
                &&& item is None ==> final(self).finalized_since(*old(self))
            },
    {
        if self.finally.is_none() {
            return None;
        }
        let item = self.inner.next_with(render);
        if item.is_none() {
            self.finalize();
        }
        item
    }

    /// Runs a sequential rendering to its end, runs the finalization, and
    /// returns what the rendering produced: for each pixel that was left,
    /// in the order of the walk, what `render` made of it.
    pub fn collect_with<R: Fn(u32, u32) -> Result<Color, RaytracerError>>(
        &mut self,
        render: &R,
    ) -> (items: Vec<Result<Pixel, RaytracerError>>)
        requires
            old(self).wf(),
            forall|x: u32, y: u32| render.requires((x, y)),
        ensures
            final(self).wf(),
            old(self).finalized() ==> items@.len() == 0 && *final(self) == *old(self),
            !old(self).finalized() ==> {
                &&& collected(old(self).rendering(), *render, items@, final(self).rendering())
                &&& final(self).finalized_since(*old(self))
            },
    {
        if self.finally.is_none() {
            return Vec::new();
        }
        let items = self.inner.collect_with(render);
        self.finalize();
        items
    }

    /// The next pixel of a parallel rendering.
    ///
    /// While pixels are awaited, `receive` is called, once, to wait for the
    /// next one that a unit of work has sent.  The first call that awaits
    /// none, or to which `receive` answers that none will come, runs the
    /// finalization and returns `None`.  Every later call returns `None`
    /// and does nothing else.
    pub fn next_delivered<R: FnOnce() -> Option<Result<Pixel, RaytracerError>>>(
        &mut self,
        receive: R,
    ) -> (item: Option<Result<Pixel, RaytracerError>>)
        requires
            old(self).wf(),
            !old(self).finalized() && !old(self).rendering().finished() && old(
                self,
            ).rendering().spec_awaited() > 0 ==> receive.requires(()),
        ensures
            final(self).wf(),
            old(self).finalized() ==> item is None && *final(self) == *old(self),
            !old(self).finalized() ==> {
                &&& delivered(old(self).rendering(), receive, item, final(self).rendering())
                &&& item is Some ==> final(self).finalizer() == old(self).finalizer()
                &&& item is None ==> final(self).finalized_since(*old(self))
            },
    {
        if self.finally.is_none() {
            return None;
        }
        let item = self.inner.next_delivered(receive);
        if item.is_none() {
            self.finalize();
        }
        item
    }

    /// Runs a parallel rendering to its end, runs the finalization, and
    /// returns the pixels that were delivered, in the order of their
    /// delivery: at most as many as were awaited, and as many unless
    /// `receive` gave up before.
    pub fn collect_delivered<R: Fn() -> Option<Result<Pixel, RaytracerError>>>(
        &mut self,
        receive: &R,
    ) -> (items: Vec<Result<Pixel, RaytracerError>>)
        requires
            old(self).wf(),
            receive.requires(()),
        ensures
            final(self).wf(),
            old(self).finalized() ==> items@.len() == 0 && *final(self) == *old(self),
            !old(self).finalized() ==> {
                &&& gathered(old(self).rendering(), *receive, items@, final(self).rendering())
                &&& final(self).finalized_since(*old(self))
            },
    {
        if self.finally.is_none() {
            return Vec::new();
        }
        let items = self.inner.collect_delivered(receive);
        self.finalize();
        items
    }
}

/// `iter` is a rendering of the canvas of `config` of which no pixel is out
/// yet: a sequential one has the whole canvas to walk over, a parallel one
/// awaits one pixel from each of its units of work.
pub open spec fn starts(iter: RenderIterator, config: RenderConfiguration, parallel: bool) -> bool {
    &&& !iter.finished()
    &&& match iter.spec_producer() {
        Producer::Sequential(area) => {
            &&& !parallel
            &&& area.spec_config() == config
            &&& area.remaining() == row_major(
                config.canvas_width as int,
                config.canvas_height as int,
            )
            &&& iter.spec_awaited() == 0
        },
        Producer::Parallel(renderer) => {
            &&& parallel
            &&& renderer.spec_config() == config
            &&& iter.spec_awaited() == renderer.tasks().len()
        },
    }
}

/// A rendering of the scene on the canvas of `config`, sequential or
/// parallel.  A scene without a light is refused, before any pixel is
/// computed.
pub fn render_scene<K, L, O>(scene: &Scene<K, L, O>, config: RenderConfiguration, parallel: bool) -> (rendering: Result<RenderIterator, RaytracerError>)
    ensures
        scene.lights@.len() == 0 ==> rendering matches Err(RaytracerError::NoLight),
        scene.lights@.len() > 0 ==> (rendering matches Ok(iter) && starts(iter, config, parallel)),
{
    if scene.lights.len() == 0 {
        return Err(RaytracerError::NoLight);
    }
    if parallel {
        let renderer = renderer_parallel(config);
        let awaited = renderer.task_count();
        Ok(RenderIterator { producer: Producer::Parallel(renderer), awaited, done: false })
    } else {
        Ok(
            RenderIterator {
                producer: Producer::Sequential(renderer_sequential(config)),
                awaited: 0,
                done: false,
            },
        )
    }
}

/// A rendering of the scene on the canvas of `config`, sequential or
/// parallel, that runs `finally` once, when the last pixel is out.
///
/// A scene without a light is refused, before any pixel is computed and
/// without `finally` being run.
pub fn render_scene_with_finally<K, L, O, F: FnOnce()>(
    scene: &Scene<K, L, O>,
    config: RenderConfiguration,
    parallel: bool,
    finally: F,
) -> (rendering: Result<ProgressiveRenderIterator<F>, RaytracerError>)
    requires
        finally.requires(()),
    ensures
        scene.lights@.len() == 0 ==> rendering matches Err(RaytracerError::NoLight),
        scene.lights@.len() > 0 ==> (rendering matches Ok(iter) && iter.wf() && starts(
            iter.rendering(),
            config,
            parallel,
        ) && iter.finalizer() == Some(finally)),
{
    match render_scene(scene, config, parallel) {
        Ok(inner) => Ok(ProgressiveRenderIterator { inner, finally: Some(finally) }),
        Err(error) => Err(error),
    }
}

/// A ray of the camera with the pixel of the screen that it goes through.
#[derive(Debug)]
pub struct ScreenRay<R> {
    pub screen_x: u32,
    pub screen_y: u32,
    pub ray: R,
}

/// The rays of the camera, one for each pixel of the screen, in row-major
/// order.  The ray through a pixel comes from `emit`, which is called
/// once for each pixel, with its column and its row.
pub fn generate_rays<R, E: Fn(u32, u32) -> R>(screen_width: u32, screen_height: u32, emit: &E) -> (rays:
    Vec<ScreenRay<R>>)
    requires
        screen_width * screen_height <= u32::MAX,
        forall|x: u32, y: u32| emit.requires((x, y)),
    ensures
        rays@.len() == screen_width * screen_height,
        forall|k: int|
            0 <= k < rays@.len() ==> {
                &&& (#[trigger] rays@[k]).screen_x == k % (screen_width as int)
                &&& rays@[k].screen_y == k / (screen_width as int)
                &&& (rays@[k].screen_x, rays@[k].screen_y) == row_major(
                    screen_width as int,
                    screen_height as int,
                )[k]
                &&& emit.ensures((rays@[k].screen_x, rays@[k].screen_y), rays@[k].ray)
            },
{
    let max_index: u32 = screen_width * screen_height;
    let mut rays: Vec<ScreenRay<R>> = Vec::new();
    let mut index: u32 = 0;
    while index < max_index
        invariant
            max_index == screen_width * screen_height,
            0 <= index <= max_index,
            forall|x: u32, y: u32| emit.requires((x, y)),
            rays@.len() == index,
            forall|k: int|
                0 <= k < rays@.len() ==> {
                    &&& (#[trigger] rays@[k]).screen_x == k % (screen_width as int)
                    &&& rays@[k].screen_y == k / (screen_width as int)
                    &&& (rays@[k].screen_x, rays@[k].screen_y) == row_major(
                        screen_width as int,
                        screen_height as int,
                    )[k]
                    &&& emit.ensures((rays@[k].screen_x, rays@[k].screen_y), rays@[k].ray)
                },
        decreases max_index - index,
    {
        proof {
            lemma_row_major_entry(screen_width, screen_height, index as int);
        }
        let screen_x: u32 = index % screen_width;
        let screen_y: u32 = index / screen_width;
        let ray = emit(screen_x, screen_y);
        rays.push(ScreenRay { screen_x, screen_y, ray });
        index = index + 1;
    }
    rays
}

/// The entry of index `k` of a canvas in row-major order stands inside the
/// canvas, and `k` is its row times the width plus its column.
pub proof fn lemma_row_major_entry(width: u32, height: u32, k: int)
    requires
        0 <= k < row_major(width as int, height as int).len(),
    ensures
        width > 0,
        0 <= k % (width as int) < width,
        0 <= k / (width as int) < height,
        k == (k / (width as int)) * width + k % (width as int),
        row_major(width as int, height as int)[k] == ((k % (width as int)) as u32, (k / (
            width as int
        )) as u32),
{
    let w = width as int;
    let h = height as int;
    assert(w > 0) by (nonlinear_arith)
        requires
            0 <= k < w * h,
            0 <= w,
    ;
    lemma_fundamental_div_mod(k, w);
    lemma_mod_bound(k, w);
    let q = k / w;
    assert(0 <= q < h) by (nonlinear_arith)
        requires
            k == w * q + k % w,
            0 <= k % w < w,
            0 <= k < w * h,
            w > 0,
    ;
    assert(w * q == q * w) by (nonlinear_arith);
}

/// Each pixel of the canvas is found once in row-major order, at the index
/// of its row times the width plus its column.
pub proof fn lemma_row_major_once(width: u32, height: u32, x: u32, y: u32)
    requires
        x < width,
        y < height,
    ensures
        0 <= y * width + x < row_major(width as int, height as int).len(),
        row_major(width as int, height as int)[y * width + x] == (x, y),
        forall|k: int|
            0 <= k < row_major(width as int, height as int).len() && #[trigger] row_major(
                width as int,
                height as int,
            )[k] == (x, y) ==> k == y * width + x,
{
    let w = width as int;
    let h = height as int;
    let at = y * w + x;
    assert(0 <= at < w * h) by (nonlinear_arith)
        requires
            at == y * w + x,
            0 <= x < w,
            0 <= y < h,
    ;
    lemma_fundamental_div_mod_converse(at, w, y as int, x as int);
    assert forall|k: int|
        0 <= k < row_major(w, h).len() && #[trigger] row_major(w, h)[k] == (x, y) implies k
        == at by {
        lemma_row_major_entry(width, height, k);
    }
}

/// The walk over an area visits the pixels of the area and no other, each
/// of them once, row after row: it has as many steps as the area has
/// pixels, each step stands on a pixel of the area, and the pixel in column
/// `x` of row `y` is found at the index of its row in the area times the
/// width plus its column in the area, and at no other.
pub proof fn lemma_area_walk(
    area_x: u32,
    area_y: u32,
    area_width: u32,
    area_height: u32,
    x: u32,
    y: u32,
    k: int,
)
    requires
        area_x + area_width <= u32::MAX + 1,
        area_y + area_height <= u32::MAX + 1,
    ensures
        area_pixels(area_x as int, area_y as int, area_width as int, area_height as int).len()
            == area_width * area_height,
        0 <= k < area_width * area_height ==> in_area(
            area_x,
            area_y,
            area_width,
            area_height,
            area_pixels(area_x as int, area_y as int, area_width as int, area_height as int)[k],
        ),
        in_area(area_x, area_y, area_width, area_height, (x, y)) ==> {
            &&& 0 <= index_in_area(area_x, area_y, area_width, (x, y)) < area_width * area_height
            &&& area_pixels(
                area_x as int,
                area_y as int,
                area_width as int,
                area_height as int,
            )[index_in_area(area_x, area_y, area_width, (x, y))] == (x, y)
        },
        0 <= k < area_width * area_height && area_pixels(
            area_x as int,
            area_y as int,
            area_width as int,
            area_height as int,
        )[k] == (x, y) ==> k == index_in_area(area_x, area_y, area_width, (x, y)),
{
    let w = area_width as int;
    let h = area_height as int;
    let walk = area_pixels(area_x as int, area_y as int, w, h);
    assert(w * h >= 0) by (nonlinear_arith)
        requires
            w >= 0,
            h >= 0,
    ;
    if 0 <= k < w * h {
        lemma_row_major_entry(area_width, area_height, k);
        assert(walk[k] == ((area_x + k % w) as u32, (area_y + k / w) as u32));
    }
    if in_area(area_x, area_y, area_width, area_height, (x, y)) {
        let column = x - area_x;
        let row = y - area_y;
        let at = row * w + column;
        assert(0 <= at < w * h) by (nonlinear_arith)
            requires
                at == row * w + column,
                0 <= column < w,
                0 <= row < h,
        ;
        lemma_fundamental_div_mod_converse(at, w, row, column);
        assert(walk[at] == ((area_x + at % w) as u32, (area_y + at / w) as u32));
    }
}

/// The pixel `at` stands in the area that is `width` columns wide and
/// `height` rows high and has its first pixel in column `x` of row `y`.
pub open spec fn in_area(x: u32, y: u32, width: u32, height: u32, at: (u32, u32)) -> bool {
    &&& x <= at.0 < x + width
    &&& y <= at.1 < y + height
}

/// The index of the pixel `at` in the walk over the area that is `width`
/// columns wide and has its first pixel in column `x` of row `y`: the row
/// of the pixel in the area times the width, plus its column in the area.
pub open spec fn index_in_area(x: u32, y: u32, width: u32, at: (u32, u32)) -> int {
    (at.1 - y) * width + (at.0 - x)
}

/// A rendering computes each pixel of its canvas once.
///
/// The walk of a sequential rendering and the units of work of a parallel
/// rendering are the same sequence of as many pixels as the canvas has;
/// each pixel of the canvas stands in it, at one index and at no other.
pub proof fn lemma_each_pixel_rendered_once(config: RenderConfiguration, x: u32, y: u32)
    requires
        x < config.canvas_width,
        y < config.canvas_height,
    ensures
        ({
            let walk = area_pixels(
                0,
                0,
                config.canvas_width as int,
                config.canvas_height as int,
            );
            let tasks = row_major(config.canvas_width as int, config.canvas_height as int);
            let at = y * config.canvas_width + x;
            &&& walk == tasks
            &&& walk.len() == config.canvas_width * config.canvas_height
            &&& 0 <= at < walk.len()
            &&& walk[at] == (x, y)
            &&& forall|k: int| 0 <= k < walk.len() && #[trigger] walk[k] == (x, y) ==> k == at
        }),
{
    lemma_row_major_once(config.canvas_width, config.canvas_height, x, y);
}

/// A rendering computes no pixel outside of its canvas: every step of the
/// walk over a canvas stands inside of it.
pub proof fn lemma_rendered_pixels_on_canvas(config: RenderConfiguration, k: int)
    requires
        0 <= k < row_major(config.canvas_width as int, config.canvas_height as int).len(),
    ensures
        ({
            let at = row_major(config.canvas_width as int, config.canvas_height as int)[k];
            at.0 < config.canvas_width && at.1 < config.canvas_height
        }),
{
    lemma_row_major_entry(config.canvas_width, config.canvas_height, k);
}

} // verus!
