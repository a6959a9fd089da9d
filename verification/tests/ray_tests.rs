//! Rays: point-at-parameter and tuple conversion.

use abctracer::ray::Ray;
use abctracer::vector::Vector;
use abctracer::SCALE;

fn fx(v: f64) -> i64 {
    (v * SCALE as f64).round() as i64
}

#[test]
fn ray_point() {
    assert_eq!(
        Ray::from(((fx(1.0), fx(2.0), fx(3.0)), (fx(1.0), fx(1.0), fx(1.0)))).point(fx(5.0)),
        Vector {
            x: fx(1.0 + 5.0),
            y: fx(2.0 + 5.0),
            z: fx(3.0 + 5.0),
        }
    );
}

#[test]
fn ray_from_tuple() {
    assert_eq!(
        Ray::from(((fx(1.0), fx(2.0), fx(3.0)), (fx(4.0), fx(5.0), fx(6.0)))),
        Ray::new(
            Vector {
                x: fx(1.0),
                y: fx(2.0),
                z: fx(3.0),
            },
            Vector {
                x: fx(4.0),
                y: fx(5.0),
                z: fx(6.0),
            }
        )
    )
}
