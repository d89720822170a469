use geo_types::Coord;
use lyon_geo_types::grouping::{group_contours, StreamError};
use lyon_geo_types::shapes::{Contour, PathCommand};
use lyon_path::iterator::PathIterator;
use lyon_path::math::point;
use lyon_path::{Path, PathEvent, Polygon};

fn to_coord(p: lyon_path::math::Point) -> Coord<f64> {
    Coord { x: p.x as f64, y: p.y as f64 }
}

fn flatten<I: Iterator<Item = PathEvent>>(events: I, tolerance: f32) -> Vec<PathCommand<Coord<f64>>> {
    events
        .flattened(tolerance)
        .map(|e| match e {
            PathEvent::Begin { at } => PathCommand::Begin { at: to_coord(at) },
            PathEvent::Line { to, .. } => PathCommand::Line { to: to_coord(to) },
            PathEvent::Quadratic { ctrl, to, .. } => PathCommand::Quadratic { ctrl: to_coord(ctrl), to: to_coord(to) },
            PathEvent::Cubic { ctrl1, ctrl2, to, .. } => PathCommand::Cubic {
                ctrl1: to_coord(ctrl1),
                ctrl2: to_coord(ctrl2),
                to: to_coord(to),
            },
            PathEvent::End { close, .. } => PathCommand::End { close },
        })
        .collect()
}

fn c(x: f64, y: f64) -> Coord<f64> {
    Coord { x, y }
}

#[test]
fn test_simple() {
    let path = {
        let mut builder = Path::builder();
        builder.begin(point(0., 0.));
        builder.line_to(point(10., 10.));
        builder.line_to(point(5., 20.));
        builder.close();
        builder.build()
    };
    let contours = group_contours(&flatten(path.iter(), 0.1)).unwrap();
    assert_eq!(contours, vec![Contour::new(vec![c(0., 0.), c(10., 10.), c(5., 20.)], true)]);
}

#[test]
fn test_curve() {
    let path = {
        let mut builder = Path::builder();
        builder.begin(point(0., 0.));
        builder.line_to(point(10., 10.));
        builder.quadratic_bezier_to(point(10., 20.), point(5., 20.));
        builder.close();
        builder.build()
    };
    let contours = group_contours(&flatten(path.iter(), 0.1)).unwrap();
    assert_eq!(contours.len(), 1);
    let pts = &contours[0].points;
    assert!(pts.len() > 3);
    assert_eq!(pts[0], c(0., 0.));
    assert_eq!(pts[1], c(10., 10.));
    assert_eq!(*pts.last().unwrap(), c(5., 20.));
    assert!(contours[0].closed);
}

#[test]
fn test_svg_multi() {
    let path = {
        let mut builder = Path::builder().with_svg();
        builder.move_to(point(0., 0.));
        builder.line_to(point(10., 10.));
        builder.line_to(point(5., 20.));
        builder.close();
        builder.move_to(point(20., 30.));
        builder.line_to(point(40., 50.));
        builder.line_to(point(30., 40.));
        builder.close();
        builder.build()
    };
    let contours = group_contours(&flatten(path.iter(), 0.1)).unwrap();
    assert_eq!(
        contours,
        vec![
            Contour::new(vec![c(0., 0.), c(10., 10.), c(5., 20.)], true),
            Contour::new(vec![c(20., 30.), c(40., 50.), c(30., 40.)], true),
        ]
    );
}

#[test]
fn test_polygon() {
    let poly = Polygon {
        points: &[
            point(-100., 100.),
            point(100., 100.),
            point(100., -100.),
            point(-100., -100.),
        ],
        closed: true,
    };
    let contours = group_contours(&flatten(poly.path_events(), 0.1)).unwrap();
    assert_eq!(
        contours,
        vec![Contour::new(
            vec![c(-100., 100.), c(100., 100.), c(100., -100.), c(-100., -100.)],
            true
        )]
    );
}

#[test]
fn quadratic_curve_flattens_into_one_contour() {
    let path = {
        let mut builder = Path::builder();
        builder.begin(point(0., 0.));
        builder.quadratic_bezier_to(point(10., 20.), point(20., 0.));
        builder.line_to(point(20., -10.));
        builder.end(false);
        builder.build()
    };
    let contours = group_contours(&flatten(path.iter(), 0.25)).unwrap();
    assert_eq!(contours.len(), 1);
    assert!(contours[0].points.len() >= 2);
    assert!(!contours[0].closed);
    assert_eq!(*contours[0].points.last().unwrap(), c(20., -10.));
}

#[test]
fn unflattened_curve_is_refused() {
    let path = {
        let mut builder = Path::builder();
        builder.begin(point(0., 0.));
        builder.quadratic_bezier_to(point(10., 20.), point(20., 0.));
        builder.end(true);
        builder.build()
    };
    let commands: Vec<PathCommand<Coord<f64>>> = path
        .iter()
        .map(|e| match e {
            PathEvent::Begin { at } => PathCommand::Begin { at: to_coord(at) },
            PathEvent::Line { to, .. } => PathCommand::Line { to: to_coord(to) },
            PathEvent::Quadratic { ctrl, to, .. } => PathCommand::Quadratic { ctrl: to_coord(ctrl), to: to_coord(to) },
            PathEvent::Cubic { ctrl1, ctrl2, to, .. } => PathCommand::Cubic {
                ctrl1: to_coord(ctrl1),
                ctrl2: to_coord(ctrl2),
                to: to_coord(to),
            },
            PathEvent::End { close, .. } => PathCommand::End { close },
        })
        .collect();
    assert_eq!(group_contours(&commands), Err(StreamError::UnflattenedCurve));
}
