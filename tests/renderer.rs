use oxidized::engine::{Scene, EARTH_GRAVITY};
use oxidized::geometry::{GeometryError, Vertex};
use oxidized::renderer::{Action, Event, Phase, Renderer, TIME_DELTA};

fn square() -> (Vec<Vertex>, Vec<u32>) {
    (
        vec![
            Vertex::new(0, 0),
            Vertex::new(0, 1000),
            Vertex::new(1000, 0),
            Vertex::new(1000, 1000),
        ],
        vec![0, 1, 2, 1, 2, 3],
    )
}

fn with_units(n: usize) -> Renderer {
    let mut r = Renderer::new("test");
    for _ in 0..n {
        let (v, i) = square();
        r = r.with_objects(v, i, "vs", "fs", Some("square")).unwrap();
    }
    r
}

fn running(n: usize) -> Renderer {
    let mut r = with_units(n);
    assert_eq!(r.step(Event::Resumed), vec![Action::RequestRedraw]);
    r
}

#[test]
fn new_renderer_is_created_and_empty() {
    let r = Renderer::new("window");
    assert_eq!(r.title(), "window");
    assert_eq!(r.phase(), Phase::Created);
    assert_eq!(r.surface_size(), (0, 0));
    assert_eq!(r.time(), 0);
    assert_eq!(r.ticks(), 0);
    assert!(r.objects().is_empty());
}

#[test]
fn with_objects_keeps_label_and_sources() {
    let (v, i) = square();
    let r = Renderer::new("w").with_objects(v.clone(), i.clone(), "vs", "fs", Some("box")).unwrap();
    let (v2, i2) = square();
    let r = r.with_objects(v2, i2, "vs2", "fs2", None).unwrap();
    assert_eq!(r.objects().len(), 2);
    assert_eq!(r.objects()[0].label, "box");
    assert_eq!(r.objects()[0].geometry.vertices, v);
    assert_eq!(r.objects()[0].geometry.indices, i);
    assert_eq!(r.objects()[1].label, "<unknown>");
    assert_eq!(r.objects()[1].vertex_src, "vs2");
    assert_eq!(r.objects()[1].fragment_src, "fs2");
}

#[test]
fn with_objects_refuses_out_of_bounds_vertices() {
    let r = Renderer::new("w").with_objects(
        vec![Vertex::new(0, 0), Vertex::new(0, 0), Vertex::new(-10001, 0)],
        vec![0, 1, 2],
        "vs",
        "fs",
        None,
    );
    assert_eq!(r.err(), Some(GeometryError::OutOfBounds { vertex: 2 }));
}

#[test]
fn with_objects_refuses_bad_indices() {
    let (v, _) = square();
    let r = Renderer::new("w").with_objects(v.clone(), vec![0, 1], "vs", "fs", None);
    assert_eq!(r.err(), Some(GeometryError::PartialTriangle { len: 2 }));
    let r = Renderer::new("w").with_objects(v, vec![0, 1, 4], "vs", "fs", None);
    assert_eq!(r.err(), Some(GeometryError::IndexOutOfRange { position: 2 }));
}

#[test]
fn resume_requests_the_first_redraw() {
    let mut r = with_units(1);
    assert_eq!(r.step(Event::Resumed), vec![Action::RequestRedraw]);
    assert_eq!(r.phase(), Phase::Resumed);
    assert_eq!(r.step(Event::Resumed), vec![]);
}

#[test]
fn redraw_before_resume_is_ignored() {
    let mut r = with_units(1);
    assert_eq!(r.step(Event::RedrawRequested), vec![]);
    assert_eq!(r.time(), 0);
}

#[test]
fn empty_renderer_clears_and_presents_every_frame() {
    let mut r = running(0);
    for frame in 1..=5u64 {
        assert_eq!(
            r.step(Event::RedrawRequested),
            vec![Action::Clear, Action::Present, Action::RequestRedraw]
        );
        assert_eq!(r.phase(), Phase::Running);
        assert_eq!(r.time(), frame * TIME_DELTA);
    }
}

#[test]
fn frame_draws_each_unit_in_order_then_presents() {
    let mut r = running(3);
    let t = TIME_DELTA;
    assert_eq!(
        r.step(Event::RedrawRequested),
        vec![Action::Clear, Action::Draw { unit: 0, time: t }]
    );
    assert_eq!(
        r.step(Event::DrawFinished { unit: 0, drawn: true }),
        vec![Action::Draw { unit: 1, time: t }]
    );
    assert_eq!(
        r.step(Event::DrawFinished { unit: 1, drawn: true }),
        vec![Action::Draw { unit: 2, time: t }]
    );
    assert_eq!(
        r.step(Event::DrawFinished { unit: 2, drawn: true }),
        vec![Action::Present, Action::RequestRedraw]
    );
}

#[test]
fn failed_draw_is_reported_and_the_frame_goes_on() {
    let mut r = running(2);
    let t = TIME_DELTA;
    assert_eq!(
        r.step(Event::RedrawRequested),
        vec![Action::Clear, Action::Draw { unit: 0, time: t }]
    );
    assert_eq!(
        r.step(Event::DrawFinished { unit: 0, drawn: false }),
        vec![Action::ReportDrawFailure { unit: 0 }, Action::Draw { unit: 1, time: t }]
    );
    assert_eq!(
        r.step(Event::DrawFinished { unit: 1, drawn: true }),
        vec![Action::Present, Action::RequestRedraw]
    );
    assert_eq!(r.phase(), Phase::Running);
    assert_eq!(
        r.step(Event::RedrawRequested),
        vec![Action::Clear, Action::Draw { unit: 0, time: 2 * t }]
    );
}

#[test]
fn failed_last_draw_still_presents() {
    let mut r = running(1);
    r.step(Event::RedrawRequested);
    assert_eq!(
        r.step(Event::DrawFinished { unit: 0, drawn: false }),
        vec![
            Action::ReportDrawFailure { unit: 0 },
            Action::Present,
            Action::RequestRedraw
        ]
    );
    assert_eq!(r.phase(), Phase::Running);
}

#[test]
fn draw_report_for_another_unit_is_ignored() {
    let mut r = running(2);
    r.step(Event::RedrawRequested);
    assert_eq!(r.step(Event::DrawFinished { unit: 1, drawn: true }), vec![]);
    assert_eq!(r.step(Event::RedrawRequested), vec![]);
    assert_eq!(r.ticks(), 1);
}

#[test]
fn resize_changes_only_the_surface_size() {
    let mut r = running(2);
    r.step(Event::RedrawRequested);
    let before: Vec<String> = r.objects().iter().map(|u| format!("{:?}", u)).collect();
    let time = r.time();
    assert_eq!(
        r.step(Event::Resized { width: 640, height: 480 }),
        vec![Action::ResizeSurface { width: 640, height: 480 }]
    );
    let after: Vec<String> = r.objects().iter().map(|u| format!("{:?}", u)).collect();
    assert_eq!(before, after);
    assert_eq!(r.time(), time);
    assert_eq!(r.surface_size(), (640, 480));
    assert_eq!(r.phase(), Phase::Running);
    assert_eq!(
        r.step(Event::DrawFinished { unit: 0, drawn: true }),
        vec![Action::Draw { unit: 1, time: TIME_DELTA }]
    );
}

#[test]
fn about_to_wait_requests_a_redraw_while_running() {
    let mut r = with_units(0);
    assert_eq!(r.step(Event::AboutToWait), vec![]);
    r.step(Event::Resumed);
    r.step(Event::RedrawRequested);
    assert_eq!(r.step(Event::AboutToWait), vec![Action::RequestRedraw]);
}

#[test]
fn close_exits_and_later_events_are_ignored() {
    let mut r = running(1);
    assert_eq!(r.step(Event::CloseRequested), vec![Action::Exit]);
    assert_eq!(r.phase(), Phase::Closing);
    assert_eq!(r.step(Event::RedrawRequested), vec![]);
    assert_eq!(r.step(Event::Resized { width: 1, height: 1 }), vec![]);
    assert_eq!(r.step(Event::Exited), vec![]);
    assert_eq!(r.phase(), Phase::Terminated);
}

#[test]
fn lost_context_ends_the_frame_and_exits() {
    let mut r = running(2);
    r.step(Event::RedrawRequested);
    assert_eq!(r.step(Event::ContextLost), vec![Action::Exit]);
    assert_eq!(r.phase(), Phase::Closing);
    assert_eq!(r.step(Event::DrawFinished { unit: 0, drawn: true }), vec![]);
}

#[test]
fn empty_scene_issues_no_draw_call() {
    let scene = Scene::new("empty", EARTH_GRAVITY);
    let mut r = scene.execute("vs", "fs").unwrap();
    assert_eq!(r.objects().len(), 1);
    assert!(r.objects()[0].geometry.indices.is_empty());
    assert_eq!(r.step(Event::Resumed), vec![Action::RequestRedraw]);
    for frame in 1..=3u64 {
        assert_eq!(
            r.step(Event::RedrawRequested),
            vec![Action::Clear, Action::Present, Action::RequestRedraw]
        );
        assert_eq!(r.time(), frame * TIME_DELTA);
    }
}

#[test]
fn units_without_triangles_are_skipped() {
    let (v, i) = square();
    let r = Renderer::new("w").with_objects(v.clone(), i.clone(), "vs", "fs", None).unwrap();
    let r = r.with_objects(vec![], vec![], "vs", "fs", Some("empty")).unwrap();
    let mut r = r.with_objects(v, i, "vs", "fs", None).unwrap();
    r.step(Event::Resumed);
    let t = TIME_DELTA;
    assert_eq!(
        r.step(Event::RedrawRequested),
        vec![Action::Clear, Action::Draw { unit: 0, time: t }]
    );
    assert_eq!(
        r.step(Event::DrawFinished { unit: 0, drawn: true }),
        vec![Action::Draw { unit: 2, time: t }]
    );
    assert_eq!(
        r.step(Event::DrawFinished { unit: 2, drawn: true }),
        vec![Action::Present, Action::RequestRedraw]
    );
}

#[test]
fn failed_draw_before_empty_units_presents() {
    let (v, i) = square();
    let r = Renderer::new("w").with_objects(v, i, "vs", "fs", None).unwrap();
    let mut r = r.with_objects(vec![], vec![], "vs", "fs", None).unwrap();
    r.step(Event::Resumed);
    r.step(Event::RedrawRequested);
    assert_eq!(
        r.step(Event::DrawFinished { unit: 0, drawn: false }),
        vec![
            Action::ReportDrawFailure { unit: 0 },
            Action::Present,
            Action::RequestRedraw
        ]
    );
    assert_eq!(r.phase(), Phase::Running);
}
