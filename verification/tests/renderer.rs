use raytracer::colors::{Color, ColorName};
use raytracer::ray_algorithm::{
    RandomAntiAliasingRenderStrategy, RenderStrategy, StandardRenderStrategy,
};
use raytracer::renderer::{
    generate_rays, render_scene, render_scene_with_finally, renderer_parallel,
    renderer_sequential, AreaRenderIterator, Pixel, RenderConfiguration,
};
use raytracer::result::RaytracerError;
use raytracer::scalar::Scalar;
use raytracer::scene::{Scene, SceneConfiguration};
use std::cell::Cell;

fn s(value: f64) -> Scalar {
    Scalar::from_bits(value.to_bits())
}

fn f(value: Scalar) -> f64 {
    f64::from_bits(value.to_bits())
}

fn generate_test_scene() -> Scene<(), u8, u8> {
    Scene {
        camera: (),
        lights: vec![1, 2],
        objects: vec![1, 2, 3],
        config: <SceneConfiguration as Default>::default(),
    }
}

fn canvas(width: u32, height: u32) -> RenderConfiguration {
    RenderConfiguration {
        canvas_width: width,
        canvas_height: height,
        render_strategy: RenderStrategy::Standard(StandardRenderStrategy),
    }
}

fn shade(x: u32, y: u32) -> Result<Color, RaytracerError> {
    Ok(Color::new(s(x as f64 / 8.0), s(y as f64 / 8.0), s(0.5)))
}

fn coordinates(items: &[Result<Pixel, RaytracerError>]) -> Vec<(u32, u32)> {
    items
        .iter()
        .map(|item| {
            let pixel = item.as_ref().unwrap();
            (pixel.x, pixel.y)
        })
        .collect()
}

#[test]
#[should_panic]
fn scene_without_lights_is_error() {
    let scene = Scene {
        lights: Vec::new(),
        ..generate_test_scene()
    };
    let config = <RenderConfiguration as Default>::default();
    render_scene(&scene, config, false)
        .unwrap()
        .collect_with(&shade)
        .len();
}

#[test]
fn smoke_sequential_rendering() {
    let scene = generate_test_scene();
    let config = <RenderConfiguration as Default>::default();
    let expected_count = (config.canvas_height * config.canvas_width) as usize;
    let mut render_iter = render_scene(&scene, config, false).unwrap();
    let count = render_iter.collect_with(&shade).len();
    assert_eq!(count, expected_count);
}

#[test]
fn smoke_parallel_rendering() {
    let scene = generate_test_scene();
    let config = <RenderConfiguration as Default>::default();
    let expected_count = (config.canvas_height * config.canvas_width) as usize;
    let mut render_iter = render_scene(&scene, config, true).unwrap();
    let tasks = render_iter.parallel_tasks().unwrap();
    assert_eq!(tasks.task_count(), expected_count as u64);
    let next = Cell::new(tasks.task_count());
    let receive = || {
        let index = next.get();
        if index == 0 {
            None
        } else {
            next.set(index - 1);
            Some(tasks.render_task(index - 1, shade))
        }
    };
    let count = render_iter.collect_delivered(&receive).len();
    assert_eq!(count, expected_count);
}

#[test]
fn scene_without_lights_is_a_configuration_error() {
    let scene = Scene {
        lights: Vec::new(),
        ..generate_test_scene()
    };
    for parallel in [false, true] {
        match render_scene(&scene, canvas(4, 3), parallel) {
            Err(RaytracerError::NoLight) => {}
            _ => panic!("a scene without a light was accepted"),
        }
    }
}

#[test]
fn scene_without_lights_does_not_run_the_finalization() {
    let scene = Scene {
        lights: Vec::new(),
        ..generate_test_scene()
    };
    let runs = Cell::new(0);
    let rendering = render_scene_with_finally(&scene, canvas(4, 3), false, || {
        runs.set(runs.get() + 1)
    });
    assert!(matches!(rendering, Err(RaytracerError::NoLight)));
    drop(rendering);
    assert_eq!(runs.get(), 0);
}

#[test]
fn default_configuration_is_1024_by_576() {
    let config = <RenderConfiguration as Default>::default();
    assert_eq!(config.canvas_width, 1024);
    assert_eq!(config.canvas_height, 576);
    assert!(matches!(config.render_strategy, RenderStrategy::Standard(_)));
}

#[test]
fn pixel_new_keeps_its_arguments() {
    let pixel = Pixel::new(3, 4, Color::named(ColorName::Yellow));
    assert_eq!(pixel.x, 3);
    assert_eq!(pixel.y, 4);
    assert_eq!(f(pixel.color.red()), 1.0);
    assert_eq!(f(pixel.color.green()), 1.0);
    assert_eq!(f(pixel.color.blue()), 0.0);
}

#[test]
fn sequential_rendering_is_row_major() {
    let scene = generate_test_scene();
    let mut rendering = render_scene(&scene, canvas(3, 2), false).unwrap();
    let items = rendering.collect_with(&shade);
    assert_eq!(
        coordinates(&items),
        vec![(0, 0), (1, 0), (2, 0), (0, 1), (1, 1), (2, 1)]
    );
    assert!(rendering.is_finished());
}

#[test]
fn sequential_rendering_gives_each_pixel_its_own_color() {
    let scene = generate_test_scene();
    let mut rendering = render_scene(&scene, canvas(3, 2), false).unwrap();
    let items = rendering.collect_with(&shade);
    for item in items {
        let pixel = item.unwrap();
        assert_eq!(f(pixel.color.red()), pixel.x as f64 / 8.0);
        assert_eq!(f(pixel.color.green()), pixel.y as f64 / 8.0);
        assert_eq!(f(pixel.color.blue()), 0.5);
    }
}

#[test]
fn sequential_rendering_visits_each_pixel_once() {
    let scene = generate_test_scene();
    let (width, height) = (7u32, 5u32);
    let mut rendering = render_scene(&scene, canvas(width, height), false).unwrap();
    let items = rendering.collect_with(&shade);
    assert_eq!(items.len(), (width * height) as usize);
    let mut seen = vec![0u32; (width * height) as usize];
    for (x, y) in coordinates(&items) {
        assert!(x < width && y < height);
        seen[(y * width + x) as usize] += 1;
    }
    assert!(seen.iter().all(|&count| count == 1));
}

#[test]
fn parallel_tasks_cover_each_pixel_once() {
    let (width, height) = (7u32, 5u32);
    let tasks = renderer_parallel(canvas(width, height));
    assert_eq!(tasks.task_count(), 35);
    let mut seen = vec![0u32; 35];
    for index in 0..tasks.task_count() {
        let (x, y) = tasks.task(index);
        assert!(x < width && y < height);
        assert_eq!(index, (y * width + x) as u64);
        seen[(y * width + x) as usize] += 1;
    }
    assert!(seen.iter().all(|&count| count == 1));
}

#[test]
fn parallel_tasks_are_the_pixels_of_the_sequential_walk() {
    let config = canvas(5, 4);
    let tasks = renderer_parallel(config);
    let mut walk = renderer_sequential(config);
    for index in 0..tasks.task_count() {
        let pixel = walk.next_with(shade).unwrap().unwrap();
        assert_eq!(tasks.task(index), (pixel.x, pixel.y));
    }
    assert!(walk.next_with(shade).is_none());
}

#[test]
fn parallel_task_renders_its_own_pixel() {
    let tasks = renderer_parallel(canvas(4, 4));
    let pixel = tasks.render_task(6, shade).unwrap();
    assert_eq!((pixel.x, pixel.y), (2, 1));
    assert_eq!(f(pixel.color.red()), 0.25);
    assert_eq!(f(pixel.color.green()), 0.125);
    let failed = tasks.render_task(6, |_, _| Err(RaytracerError::NormalNotFound(9)));
    assert!(matches!(failed, Err(RaytracerError::NormalNotFound(9))));
}

#[test]
fn parallel_rendering_takes_pixels_in_any_order() {
    let scene = generate_test_scene();
    let mut rendering = render_scene(&scene, canvas(3, 2), true).unwrap();
    let tasks = rendering.parallel_tasks().unwrap();
    let order = [4u64, 0, 5, 2, 1, 3];
    let next = Cell::new(0usize);
    let receive = || {
        let at = next.get();
        next.set(at + 1);
        Some(tasks.render_task(order[at], shade))
    };
    assert_eq!(rendering.awaited(), 6);
    let items = rendering.collect_delivered(&receive);
    assert_eq!(
        coordinates(&items),
        vec![(1, 1), (0, 0), (2, 1), (2, 0), (1, 0), (0, 1)]
    );
    assert_eq!(rendering.awaited(), 0);
    assert!(rendering.is_finished());
    assert_eq!(next.get(), 6);
}

#[test]
fn parallel_rendering_ends_when_nothing_more_comes() {
    let scene = generate_test_scene();
    let mut rendering = render_scene(&scene, canvas(3, 2), true).unwrap();
    let first = rendering.next_delivered(|| Some(shade(0, 0).map(|c| Pixel::new(0, 0, c))));
    assert!(first.is_some());
    assert_eq!(rendering.awaited(), 5);
    assert!(rendering.next_delivered(|| None).is_none());
    assert!(rendering.is_finished());
    assert_eq!(rendering.awaited(), 5);
    let late = rendering.next_delivered(|| panic!("asked after the end"));
    assert!(late.is_none());
}

#[test]
fn sequential_rendering_has_no_parallel_tasks() {
    let scene = generate_test_scene();
    let rendering = render_scene(&scene, canvas(3, 2), false).unwrap();
    assert!(rendering.parallel_tasks().is_none());
}

#[test]
fn an_error_stands_for_its_pixel() {
    let scene = generate_test_scene();
    let mut rendering = render_scene(&scene, canvas(2, 2), false).unwrap();
    let render = |x: u32, y: u32| {
        if (x, y) == (1, 0) {
            Err(RaytracerError::NormalNotFound(7))
        } else {
            shade(x, y)
        }
    };
    let items = rendering.collect_with(&render);
    assert_eq!(items.len(), 4);
    assert!(items[0].is_ok());
    assert!(matches!(items[1], Err(RaytracerError::NormalNotFound(7))));
    let third = items[2].as_ref().unwrap();
    assert_eq!((third.x, third.y), (0, 1));
    assert!(items[3].is_ok());
}

#[test]
fn finalization_runs_once_after_the_last_pixel() {
    let scene = generate_test_scene();
    let runs = Cell::new(0);
    let mut rendering =
        render_scene_with_finally(&scene, canvas(2, 1), false, || runs.set(runs.get() + 1))
            .unwrap();
    assert!(rendering.next_with(shade).is_some());
    assert_eq!(runs.get(), 0);
    assert!(rendering.next_with(shade).is_some());
    assert_eq!(runs.get(), 0);
    assert!(!rendering.is_finalized());
    assert!(rendering.next_with(shade).is_none());
    assert_eq!(runs.get(), 1);
    assert!(rendering.is_finalized());
    assert!(rendering.next_with(shade).is_none());
    assert!(rendering.next_with(|_, _| panic!("asked after the end")).is_none());
    assert_eq!(runs.get(), 1);
}

#[test]
fn finalization_runs_once_in_parallel_too() {
    let scene = generate_test_scene();
    let runs = Cell::new(0);
    let mut rendering =
        render_scene_with_finally(&scene, canvas(2, 1), true, || runs.set(runs.get() + 1))
            .unwrap();
    let tasks = rendering.parallel_tasks().unwrap();
    let next = Cell::new(0u64);
    let receive = || {
        let index = next.get();
        next.set(index + 1);
        Some(tasks.render_task(index, shade))
    };
    let items = rendering.collect_delivered(&receive);
    assert_eq!(items.len(), 2);
    assert_eq!(runs.get(), 1);
    assert!(rendering.collect_delivered(&receive).is_empty());
    assert!(rendering.next_delivered(receive).is_none());
    assert_eq!(runs.get(), 1);
}

#[test]
fn finalization_runs_for_an_empty_canvas() {
    let scene = generate_test_scene();
    let runs = Cell::new(0);
    let mut rendering =
        render_scene_with_finally(&scene, canvas(3, 0), false, || runs.set(runs.get() + 1))
            .unwrap();
    assert!(rendering.collect_with(&shade).is_empty());
    assert_eq!(runs.get(), 1);
}

#[test]
fn area_iterator_walks_its_area() {
    let mut iter = AreaRenderIterator::new(canvas(10, 10), 2, 1, 4, 3);
    let mut visited = Vec::new();
    while let Some(item) = iter.next_with(shade) {
        let pixel = item.unwrap();
        visited.push((pixel.x, pixel.y));
    }
    assert_eq!(
        visited,
        vec![
            (2, 1),
            (3, 1),
            (4, 1),
            (5, 1),
            (2, 2),
            (3, 2),
            (4, 2),
            (5, 2),
            (2, 3),
            (3, 3),
            (4, 3),
            (5, 3)
        ]
    );
}

#[test]
fn area_iterator_yields_as_many_pixels_as_the_area_has() {
    for (x, y, width, height) in [(0u32, 1u32, 1u32, 1u32), (3, 2, 5, 4), (0, 0, 7, 1), (9, 9, 1, 6)] {
        let mut iter = AreaRenderIterator::new(canvas(20, 20), x, y, width, height);
        let total = iter.total_pixels();
        assert_eq!(total, (width * height) as usize);
        let mut seen = vec![0u32; total];
        let mut count = 0;
        while let Some(item) = iter.next_with(shade) {
            let pixel = item.unwrap();
            assert!(x <= pixel.x && pixel.x < x + width);
            assert!(y <= pixel.y && pixel.y < y + height);
            let index = ((pixel.y - y) * width + (pixel.x - x)) as usize;
            assert_eq!(index, count);
            seen[index] += 1;
            count += 1;
        }
        assert_eq!(count, total);
        assert!(seen.iter().all(|&visits| visits == 1));
    }
}

#[test]
fn area_in_the_second_row_of_a_canvas_has_its_pixel() {
    let mut iter = AreaRenderIterator::new(canvas(1, 2), 0, 1, 1, 1);
    assert_eq!(iter.total_pixels(), 1);
    let pixel = iter.next_with(shade).unwrap().unwrap();
    assert_eq!((pixel.x, pixel.y), (0, 1));
    assert!(iter.next_with(shade).is_none());
}

#[test]
fn area_without_columns_or_rows_has_no_pixel() {
    let mut flat = AreaRenderIterator::new(canvas(4, 4), 1, 1, 3, 0);
    assert_eq!(flat.total_pixels(), 0);
    assert!(flat.next_with(|_, _| panic!("no pixel to render")).is_none());
    let mut thin = AreaRenderIterator::new(canvas(4, 4), 1, 1, 0, 3);
    assert_eq!(thin.total_pixels(), 0);
    assert!(thin.next_with(|_, _| panic!("no pixel to render")).is_none());
    let mut empty = AreaRenderIterator::with_full_area(canvas(0, 5));
    assert!(empty.next_with(|_, _| panic!("no pixel to render")).is_none());
}

#[test]
fn area_iterator_full_area_counts_its_pixels() {
    let config = canvas(6, 4);
    let iter = AreaRenderIterator::with_full_area(config);
    assert_eq!(iter.total_pixels(), 24);
    assert_eq!(iter.config().canvas_width, 6);
    let area = AreaRenderIterator::new(config, 0, 0, 3, 2);
    assert_eq!(area.total_pixels(), 6);
}

#[test]
fn area_iterator_survives_the_last_column() {
    let mut iter = AreaRenderIterator::new(canvas(1, 1), u32::MAX - 1, u32::MAX, 2, 1);
    let first = iter.next_with(shade).unwrap().unwrap();
    assert_eq!((first.x, first.y), (u32::MAX - 1, u32::MAX));
    let second = iter.next_with(shade).unwrap().unwrap();
    assert_eq!((second.x, second.y), (u32::MAX, u32::MAX));
    assert!(iter.next_with(shade).is_none());
}

#[test]
fn strategies_send_their_rays() {
    let standard = RenderStrategy::Standard(StandardRenderStrategy);
    assert_eq!(standard.rays_per_pixel(), 1);
    assert!(standard.is_deterministic());
    let random =
        RenderStrategy::RandomAntiAliasing(RandomAntiAliasingRenderStrategy { rays_per_pixel: 50 });
    assert_eq!(random.rays_per_pixel(), 50);
    assert!(!random.is_deterministic());
}

#[test]
fn standard_strategy_traces_one_ray() {
    let calls = Cell::new(0);
    let color = StandardRenderStrategy
        .render_pixel(|| {
            calls.set(calls.get() + 1);
            Ok(Color::named(ColorName::Green))
        })
        .unwrap();
    assert_eq!(calls.get(), 1);
    assert_eq!(f(color.green()), 1.0);
    let failed = StandardRenderStrategy.render_pixel(|| Err(RaytracerError::NormalNotFound(2)));
    assert!(matches!(failed, Err(RaytracerError::NormalNotFound(2))));
}

#[test]
fn standard_strategy_gives_the_same_color_twice() {
    let trace = || shade(3, 5);
    let first = StandardRenderStrategy.render_pixel(trace).unwrap();
    let second = StandardRenderStrategy.render_pixel(trace).unwrap();
    assert_eq!(first.red().to_bits(), second.red().to_bits());
    assert_eq!(first.green().to_bits(), second.green().to_bits());
    assert_eq!(first.blue().to_bits(), second.blue().to_bits());
}

#[test]
fn random_strategy_averages_its_rays() {
    let strategy = RandomAntiAliasingRenderStrategy { rays_per_pixel: 4 };
    let calls = Cell::new(0u32);
    let draw = || {
        calls.set(calls.get() + 1);
        (s(calls.get() as f64 / 10.0), s(0.5))
    };
    let trace = |across: Scalar, down: Scalar| Ok(Color::new(across, s(1.0), s(f(down) - 0.5)));
    let blend = |before: Color, sample: Color| {
        Color::new(
            s(f(before.red()) + 0.25 * f(sample.red())),
            s(f(before.green()) + 0.25 * f(sample.green())),
            s(f(before.blue()) + 0.25 * f(sample.blue())),
        )
    };
    let color = strategy.render_pixel(&draw, &trace, &blend).unwrap();
    assert_eq!(calls.get(), 4);
    assert_eq!(f(color.red()), 0.25);
    assert_eq!(f(color.green()), 1.0);
    assert_eq!(f(color.blue()), 0.0);
}

#[test]
fn random_strategy_without_rays_is_black() {
    let strategy = RandomAntiAliasingRenderStrategy { rays_per_pixel: 0 };
    let draw = || -> (Scalar, Scalar) { panic!("no point was asked for") };
    let trace =
        |_: Scalar, _: Scalar| -> Result<Color, RaytracerError> { panic!("no ray was asked for") };
    let blend = |before: Color, _: Color| before;
    let color = strategy.render_pixel(&draw, &trace, &blend).unwrap();
    assert_eq!((f(color.red()), f(color.green()), f(color.blue())), (0.0, 0.0, 0.0));
}

#[test]
fn random_strategy_stops_at_the_first_error() {
    let strategy = RandomAntiAliasingRenderStrategy { rays_per_pixel: 5 };
    let calls = Cell::new(0u32);
    let draw = || {
        calls.set(calls.get() + 1);
        (s(calls.get() as f64), s(0.0))
    };
    let trace = |across: Scalar, _: Scalar| {
        if f(across) == 3.0 {
            Err(RaytracerError::NormalNotFound(1))
        } else {
            Ok(Color::named(ColorName::White))
        }
    };
    let blend = |before: Color, _: Color| before;
    let result = strategy.render_pixel(&draw, &trace, &blend);
    assert!(matches!(result, Err(RaytracerError::NormalNotFound(1))));
    assert_eq!(calls.get(), 3);
}

#[test]
fn generate_rays_is_row_major() {
    let rays = generate_rays(3, 2, &|x: u32, y: u32| 10 * y + x);
    let seen: Vec<(u32, u32, u32)> = rays
        .iter()
        .map(|ray| (ray.screen_x, ray.screen_y, ray.ray))
        .collect();
    assert_eq!(
        seen,
        vec![(0, 0, 0), (1, 0, 1), (2, 0, 2), (0, 1, 10), (1, 1, 11), (2, 1, 12)]
    );
    assert!(generate_rays(0, 5, &|x: u32, _: u32| x).is_empty());
    assert!(generate_rays(5, 0, &|x: u32, _: u32| x).is_empty());
}

#[test]
fn random_strategy_depends_on_its_draws_alone() {
    let strategy = RandomAntiAliasingRenderStrategy { rays_per_pixel: 3 };
    let points = [(0.25, 0.75), (0.5, 0.125), (0.875, 0.0)];
    let trace = |across: Scalar, down: Scalar| Ok(Color::new(across, down, s(0.5)));
    let blend = |before: Color, sample: Color| {
        Color::new(
            s(f(before.red()) + f(sample.red()) / 3.0),
            s(f(before.green()) + f(sample.green()) / 3.0),
            s(f(before.blue()) + f(sample.blue()) / 3.0),
        )
    };
    let render = || {
        let next = Cell::new(0usize);
        let draw = || {
            let point = points[next.get()];
            next.set(next.get() + 1);
            (s(point.0), s(point.1))
        };
        strategy.render_pixel(&draw, &trace, &blend).unwrap()
    };
    let first = render();
    let second = render();
    assert_eq!(first.red().to_bits(), second.red().to_bits());
    assert_eq!(first.green().to_bits(), second.green().to_bits());
    assert_eq!(first.blue().to_bits(), second.blue().to_bits());
    assert_eq!(
        f(first.red()),
        0.0 + 0.25 / 3.0 + 0.5 / 3.0 + 0.875 / 3.0
    );
}

#[test]
fn parallel_rendering_returns_every_pixel_that_is_delivered() {
    let scene = generate_test_scene();
    let mut rendering = render_scene(&scene, canvas(9, 7), true).unwrap();
    let tasks = rendering.parallel_tasks().unwrap();
    let next = Cell::new(0u64);
    let receive = || {
        let index = next.get() % tasks.task_count();
        next.set(next.get() + 1);
        Some(tasks.render_task(index, shade))
    };
    let items = rendering.collect_delivered(&receive);
    assert_eq!(items.len(), 63);
    assert_eq!(rendering.awaited(), 0);
}

#[test]
fn parallel_rendering_keeps_awaiting_what_never_came() {
    let scene = generate_test_scene();
    let mut rendering = render_scene(&scene, canvas(3, 2), true).unwrap();
    let tasks = rendering.parallel_tasks().unwrap();
    let next = Cell::new(0u64);
    let receive = || {
        let index = next.get();
        next.set(index + 1);
        if index < 4 {
            Some(tasks.render_task(index, shade))
        } else {
            None
        }
    };
    let items = rendering.collect_delivered(&receive);
    assert_eq!(items.len(), 4);
    assert_eq!(rendering.awaited(), 2);
    assert!(rendering.is_finished());
}
