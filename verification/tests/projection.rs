use volume_projection::projection::{fragment_color, project};
use volume_projection::ratio::Fraction;
use volume_projection::ray::{ray_box_span, Extent, Point, Ray, Span};
use volume_projection::reduction::reduce;
use volume_projection::sampling::march;
use volume_projection::style::VolumeProjectionRenderingStyle;
use volume_projection::voxel_grid::CpuTexture3D;

const MIN: VolumeProjectionRenderingStyle =
    VolumeProjectionRenderingStyle::MinimumIntensityProjection;
const MAX: VolumeProjectionRenderingStyle =
    VolumeProjectionRenderingStyle::MaximumIntensityProjection;
const AVG: VolumeProjectionRenderingStyle =
    VolumeProjectionRenderingStyle::AverageIntensityProjection;

fn ray(origin: (i16, i16, i16), direction: (i16, i16, i16)) -> Ray {
    Ray {
        origin: Point { x: origin.0, y: origin.1, z: origin.2 },
        direction: Point { x: direction.0, y: direction.1, z: direction.2 },
    }
}

fn cube(side: u16) -> Extent {
    Extent { x: side, y: side, z: side }
}

fn texture(width: u32, height: u32, depth: u32, data: Vec<u8>) -> CpuTexture3D {
    CpuTexture3D { data, width, height, depth }
}

fn span(near: (i64, i64), exit: (i64, i64)) -> Span {
    Span {
        near: Fraction { num: near.0, den: near.1 },
        exit: Fraction { num: exit.0, den: exit.1 },
    }
}

/// The intensity as numerator and denominator.
fn parts(
    t: &CpuTexture3D,
    size: &Extent,
    r: &Ray,
    steps: u32,
    style: VolumeProjectionRenderingStyle,
) -> Option<(u128, u128)> {
    project(t, size, r, steps, style).map(|i| (i.numerator(), i.denominator()))
}

#[test]
fn span_of_a_ray_through_the_middle() {
    // The box reaches from -2 to 2; the ray enters at t = 8 and leaves at t = 12.
    let s = ray_box_span(&ray((0, 0, -10), (0, 0, 1)), &cube(4));
    assert_eq!(s, Some(span((16, 2), (24, 2))));
}

#[test]
fn span_of_a_ray_against_the_axis() {
    let s = ray_box_span(&ray((10, 0, 0), (-1, 0, 0)), &cube(4));
    assert_eq!(s, Some(span((16, 2), (24, 2))));
}

#[test]
fn span_does_not_depend_on_the_length_of_the_direction() {
    let s = ray_box_span(&ray((0, 0, -10), (0, 0, 2)), &cube(4)).unwrap();
    // Entry at t = 4 and exit at t = 6: the same points as with a unit direction.
    assert_eq!(s, span((16, 4), (24, 4)));
}

#[test]
fn span_starts_at_the_origin_inside_the_box() {
    let s = ray_box_span(&ray((0, 0, 0), (1, 0, 0)), &cube(4));
    assert_eq!(s, Some(span((0, 1), (4, 2))));
}

#[test]
fn span_of_a_slanted_ray_takes_the_latest_entry_and_the_earliest_exit() {
    // x in [-3, 3] for t in [1, 7]; y in [-1, 1] for t in [3/2, 5/2].
    let size = Extent { x: 6, y: 2, z: 2 };
    let s = ray_box_span(&ray((-4, -4, 0), (1, 2, 0)), &size);
    assert_eq!(s, Some(span((6, 4), (10, 4))));
}

#[test]
fn ray_beside_the_box_has_no_span() {
    assert_eq!(ray_box_span(&ray((5, 0, -10), (0, 0, 1)), &cube(4)), None);
    assert_eq!(ray_box_span(&ray((0, -3, -10), (0, 0, 1)), &cube(4)), None);
}

#[test]
fn ray_that_passes_by_has_no_span() {
    // In the slab of x for t in [8, 12], in the slab of y for t in [-1, 1].
    assert_eq!(ray_box_span(&ray((-10, 0, 0), (1, 2, 0)), &cube(4)), None);
}

#[test]
fn box_behind_the_origin_has_no_span() {
    assert_eq!(ray_box_span(&ray((10, 0, 0), (1, 0, 0)), &cube(4)), None);
}

#[test]
fn ray_that_only_touches_an_edge_has_no_span() {
    // Enters the slab of x at t = 2 and leaves the slab of y at t = 2.
    assert_eq!(ray_box_span(&ray((-4, 0, 0), (1, 1, 0)), &cube(4)), None);
}

#[test]
fn ray_that_starts_on_the_far_face_has_no_span() {
    assert_eq!(ray_box_span(&ray((2, 0, 0), (1, 0, 0)), &cube(4)), None);
}

#[test]
fn ray_along_a_face_has_a_span() {
    let s = ray_box_span(&ray((-10, 2, 0), (1, 0, 0)), &cube(4));
    assert_eq!(s, Some(span((16, 2), (24, 2))));
}

#[test]
fn ray_without_direction_has_no_span() {
    assert_eq!(ray_box_span(&ray((0, 0, 0), (0, 0, 0)), &cube(4)), None);
}

#[test]
fn box_without_thickness_has_no_span() {
    let flat = Extent { x: 4, y: 0, z: 4 };
    assert_eq!(ray_box_span(&ray((-10, 0, 0), (1, 0, 0)), &flat), None);
    assert_eq!(ray_box_span(&ray((0, -10, 0), (0, 1, 0)), &flat), None);
}

#[test]
fn span_at_the_limits_of_the_lattice() {
    let size = Extent { x: u16::MAX, y: u16::MAX, z: u16::MAX };
    let r = ray((i16::MIN, i16::MIN, i16::MIN), (i16::MAX, i16::MAX, i16::MAX));
    let s = ray_box_span(&r, &size).unwrap();
    assert_eq!(s, span((1, 65534), (131071, 65534)));
    let back = ray((i16::MAX, i16::MAX, i16::MAX), (i16::MIN, i16::MIN, i16::MIN));
    let s = ray_box_span(&back, &size).unwrap();
    assert_eq!(s, span((0, 1), (131069, 65536)));
}

#[test]
fn march_reads_the_middle_of_each_step() {
    // Two voxels along x. Steps of length 1 from t = 8: x = -1.5, -0.5, 0.5, 1.5.
    let t = texture(2, 1, 1, vec![10, 20]);
    let densities = march(&t, &cube(4), &ray((-10, 0, 0), (1, 0, 0)), 4);
    assert_eq!(densities, Some(vec![10, 10, 20, 20]));
}

#[test]
fn march_against_the_axis_reads_in_the_order_of_the_ray() {
    let t = texture(2, 1, 1, vec![10, 20]);
    let densities = march(&t, &cube(4), &ray((10, 0, 0), (-1, 0, 0)), 4);
    assert_eq!(densities, Some(vec![20, 20, 10, 10]));
}

#[test]
fn march_in_an_odd_number_of_steps() {
    // x = -4/3, 0, 4/3; the point at 0 belongs to the second voxel.
    let t = texture(2, 1, 1, vec![10, 20]);
    let densities = march(&t, &cube(4), &ray((-10, 0, 0), (1, 0, 0)), 3);
    assert_eq!(densities, Some(vec![10, 20, 20]));
}

#[test]
fn march_in_one_step_reads_the_middle_of_the_span() {
    let t = texture(4, 1, 1, vec![1, 2, 3, 4]);
    let densities = march(&t, &cube(4), &ray((-10, 0, 0), (1, 0, 0)), 1);
    assert_eq!(densities, Some(vec![3]));
}

#[test]
fn march_in_no_steps_reads_nothing() {
    let t = texture(2, 1, 1, vec![10, 20]);
    assert_eq!(march(&t, &cube(4), &ray((-10, 0, 0), (1, 0, 0)), 0), Some(vec![]));
}

#[test]
fn march_of_a_ray_that_misses_reads_nothing_at_all() {
    let t = texture(2, 1, 1, vec![10, 20]);
    assert_eq!(march(&t, &cube(4), &ray((-10, 5, 0), (1, 0, 0)), 4), None);
}

#[test]
fn march_finds_the_voxel_on_all_three_axes() {
    // The first coordinate runs fastest: voxel (x, y, z) stands at (z * 2 + y) * 2 + x.
    let t = texture(2, 2, 2, vec![0, 1, 2, 3, 4, 5, 6, 7]);
    let along_z = march(&t, &cube(4), &ray((1, -1, -10), (0, 0, 1)), 2);
    assert_eq!(along_z, Some(vec![1, 5]));
    let along_y = march(&t, &cube(4), &ray((-1, -10, 1), (0, 1, 0)), 2);
    assert_eq!(along_y, Some(vec![4, 6]));
    let along_x = march(&t, &cube(4), &ray((-10, 1, 1), (1, 0, 0)), 2);
    assert_eq!(along_x, Some(vec![6, 7]));
}

#[test]
fn march_scales_the_texture_to_the_box() {
    // The box is longer along x than the grid is; it still holds two voxels.
    let size = Extent { x: 100, y: 2, z: 2 };
    let t = texture(2, 1, 1, vec![10, 20]);
    let densities = march(&t, &size, &ray((-60, 0, 0), (1, 0, 0)), 4);
    assert_eq!(densities, Some(vec![10, 10, 20, 20]));
}

#[test]
fn march_along_the_faces_stays_in_the_grid() {
    let t = texture(1, 2, 1, vec![10, 20]);
    let high = march(&t, &cube(4), &ray((-10, 2, 0), (1, 0, 0)), 2);
    assert_eq!(high, Some(vec![20, 20]));
    let low = march(&t, &cube(4), &ray((-10, -2, 0), (1, 0, 0)), 2);
    assert_eq!(low, Some(vec![10, 10]));
}

#[test]
fn march_of_a_slanted_ray() {
    // From (-2, -2) to (2, 2) through a grid of 2 x 2: the points (-1, -1) and (1, 1).
    let t = texture(2, 2, 1, vec![1, 2, 3, 4]);
    let densities = march(&t, &cube(4), &ray((-4, -4, 0), (1, 1, 0)), 2);
    assert_eq!(densities, Some(vec![1, 4]));
}

#[test]
fn march_at_the_limits_of_the_lattice() {
    let size = Extent { x: u16::MAX, y: u16::MAX, z: u16::MAX };
    let r = ray((i16::MIN, i16::MIN, i16::MIN), (i16::MAX, i16::MAX, i16::MAX));
    let t = texture(2, 2, 2, vec![0, 1, 2, 3, 4, 5, 6, 7]);
    assert_eq!(march(&t, &size, &r, 2), Some(vec![0, 7]));
    let many = march(&t, &size, &r, 100_000).unwrap();
    assert_eq!(many.len(), 100_000);
    assert!(many[..50_000].iter().all(|&d| d == 0));
    assert!(many[50_000..].iter().all(|&d| d == 7));
}

#[test]
fn reduce_to_the_minimum() {
    let i = reduce(MIN, &[7, 3, 9]);
    assert_eq!((i.numerator(), i.denominator()), (3, 1));
    assert_eq!(i.level(), 3);
}

#[test]
fn reduce_to_the_maximum() {
    let i = reduce(MAX, &[7, 3, 9]);
    assert_eq!((i.numerator(), i.denominator()), (9, 1));
    assert_eq!(i.level(), 9);
}

#[test]
fn reduce_to_the_mean() {
    let i = reduce(AVG, &[7, 3, 9, 0]);
    assert_eq!((i.numerator(), i.denominator()), (19, 4));
    assert_eq!(i.level(), 4);
}

#[test]
fn reduce_one_density() {
    for style in [MIN, MAX, AVG] {
        let i = reduce(style, &[200]);
        assert_eq!((i.numerator(), i.denominator()), (200, 1));
    }
}

#[test]
fn reduce_the_extremes_of_the_scale() {
    assert_eq!(reduce(MIN, &[255, 255]).numerator(), 255);
    assert_eq!(reduce(MAX, &[0, 0]).numerator(), 0);
    let mean = reduce(AVG, &[255, 255, 255]);
    assert_eq!((mean.numerator(), mean.denominator()), (765, 3));
    assert_eq!(mean.level(), 255);
}

#[test]
fn missed_fragment_is_discarded_in_every_style() {
    let t = texture(2, 1, 1, vec![10, 20]);
    let misses = [
        ray((5, 0, -10), (0, 0, 1)),
        ray((-10, 0, 0), (1, 2, 0)),
        ray((10, 0, 0), (1, 0, 0)),
        ray((-4, 0, 0), (1, 1, 0)),
    ];
    for r in misses {
        for style in [MIN, MAX, AVG] {
            let projected = project(&t, &cube(4), &r, 8, style);
            assert!(projected.is_none());
            assert_eq!(fragment_color(projected), [0, 0, 0, 0]);
        }
    }
}

#[test]
fn uniform_volume_projects_to_its_density() {
    let t = texture(3, 2, 2, vec![77; 12]);
    let rays = [
        ray((-10, 0, 0), (1, 0, 0)),
        ray((0, 0, 0), (0, -1, 0)),
        ray((-9, -7, -8), (9, 7, 8)),
        ray((1, 1, 30), (0, 0, -3)),
    ];
    for r in rays {
        for steps in [1, 2, 7, 200] {
            for style in [MIN, MAX, AVG] {
                let (numerator, denominator) = parts(&t, &cube(4), &r, steps, style).unwrap();
                assert_eq!(numerator, 77 * denominator);
                let color = fragment_color(project(&t, &cube(4), &r, steps, style));
                assert_eq!(color, [77, 77, 77, 255]);
            }
        }
    }
}

#[test]
fn volume_of_zero_and_one_projects_to_both_and_between() {
    let t = texture(2, 1, 1, vec![0, 1]);
    let r = ray((-10, 0, 0), (1, 0, 0));
    for steps in [2, 3, 4, 200, 201] {
        assert_eq!(parts(&t, &cube(4), &r, steps, MIN), Some((0, 1)));
        assert_eq!(parts(&t, &cube(4), &r, steps, MAX), Some((1, 1)));
        let (numerator, denominator) = parts(&t, &cube(4), &r, steps, AVG).unwrap();
        assert!(0 < numerator && numerator < denominator);
    }
    assert_eq!(parts(&t, &cube(4), &r, 4, AVG), Some((2, 4)));
    assert_eq!(parts(&t, &cube(4), &r, 3, AVG), Some((2, 3)));
    assert_eq!(parts(&t, &cube(4), &r, 201, AVG), Some((101, 201)));
}

#[test]
fn mean_nears_the_mean_of_the_path_as_the_steps_grow() {
    // A quarter of the path lies in the voxel of density 255: the mean of the
    // path is 255 / 4. The ray crosses three voxel faces, so the mean over n
    // steps is off by no more than 3 * 255 / n.
    let t = texture(4, 1, 1, vec![0, 0, 0, 255]);
    let r = ray((-10, 0, 0), (1, 0, 0));
    assert_eq!(parts(&t, &cube(4), &r, 1, AVG), Some((0, 1)));
    assert_eq!(parts(&t, &cube(4), &r, 2, AVG), Some((255, 2)));
    assert_eq!(parts(&t, &cube(4), &r, 4, AVG), Some((255, 4)));
    assert_eq!(parts(&t, &cube(4), &r, 8, AVG), Some((510, 8)));
    for steps in 1..=64u32 {
        let (numerator, denominator) = parts(&t, &cube(4), &r, steps, AVG).unwrap();
        assert_eq!(denominator, steps as u128);
        // | numerator / steps - 255 / 4 | <= 3 * 255 / steps
        let off = (4 * numerator as i128 - 255 * steps as i128).abs();
        assert!(off <= 4 * 3 * 255);
    }
}

#[test]
fn fragment_takes_the_grey_of_the_level() {
    let t = texture(2, 1, 1, vec![0, 255]);
    let r = ray((-10, 0, 0), (1, 0, 0));
    assert_eq!(fragment_color(project(&t, &cube(4), &r, 4, MIN)), [0, 0, 0, 255]);
    assert_eq!(fragment_color(project(&t, &cube(4), &r, 4, MAX)), [255, 255, 255, 255]);
    // 510 / 4 rounds down to 127.
    assert_eq!(parts(&t, &cube(4), &r, 4, AVG), Some((510, 4)));
    assert_eq!(fragment_color(project(&t, &cube(4), &r, 4, AVG)), [127, 127, 127, 255]);
    assert_eq!(fragment_color(None), [0, 0, 0, 0]);
}

#[test]
fn projection_in_one_step() {
    let t = texture(2, 1, 1, vec![10, 20]);
    let r = ray((-10, 0, 0), (1, 0, 0));
    for style in [MIN, MAX, AVG] {
        assert_eq!(parts(&t, &cube(4), &r, 1, style), Some((20, 1)));
    }
}

#[test]
fn projection_from_inside_the_box() {
    // From the middle to the face at x = 2: x = 0.5 and 1.5, both in the last voxel.
    let t = texture(4, 1, 1, vec![1, 2, 3, 4]);
    let r = ray((0, 0, 0), (1, 0, 0));
    assert_eq!(march(&t, &cube(4), &r, 2), Some(vec![3, 4]));
    assert_eq!(parts(&t, &cube(4), &r, 2, AVG), Some((7, 2)));
}

#[test]
fn finer_steps_move_the_sum_by_no_more_than_the_crossings_allow() {
    let data: Vec<u8> = (0..24u32).map(|i| ((i * 89 + 31) % 256) as u8).collect();
    let t = texture(4, 3, 2, data);
    let size = Extent { x: 8, y: 6, z: 4 };
    let rays = [
        ray((-9, -7, -5), (9, 7, 5)),
        ray((9, -7, 5), (-9, 7, -5)),
        ray((-10, 1, 0), (5, 0, 0)),
        ray((0, 0, 0), (3, -2, 1)),
    ];
    let crossings: i128 = (4 - 1) + (3 - 1) + (2 - 1);
    for r in rays {
        for steps in [1u32, 2, 3, 5, 8, 50] {
            for factor in [1u32, 2, 3, 7, 40] {
                let coarse: i128 =
                    march(&t, &size, &r, steps).unwrap().iter().map(|&d| d as i128).sum();
                let fine: i128 = march(&t, &size, &r, steps * factor)
                    .unwrap()
                    .iter()
                    .map(|&d| d as i128)
                    .sum();
                let off = (fine - factor as i128 * coarse).abs();
                assert!(off <= 255 * factor as i128 * crossings);
            }
        }
    }
}

#[test]
fn finer_steps_leave_the_sum_of_a_ray_in_one_voxel() {
    // The ray stays in the voxel (1, 0, 0): cutting the steps changes nothing.
    let t = texture(2, 1, 1, vec![10, 20]);
    let r = ray((1, 0, -10), (0, 0, 1));
    for steps in [1u32, 3, 10] {
        for factor in [1u32, 2, 5] {
            assert_eq!(march(&t, &cube(4), &r, steps), Some(vec![20; steps as usize]));
            assert_eq!(
                march(&t, &cube(4), &r, steps * factor),
                Some(vec![20; (steps * factor) as usize])
            );
        }
    }
}

/// The same march in floating point: the densities at the middles of the
/// steps, or nothing where a middle lies too near a voxel face to tell, and
/// nothing at all where the ray clearly misses. `Err` where hit and miss are
/// too close to tell.
fn march_in_floats(
    t: &CpuTexture3D,
    size: &Extent,
    r: &Ray,
    steps: u32,
) -> Result<Option<Vec<Option<u8>>>, ()> {
    let o = [r.origin.x as f64, r.origin.y as f64, r.origin.z as f64];
    let d = [r.direction.x as f64, r.direction.y as f64, r.direction.z as f64];
    let s = [size.x as f64, size.y as f64, size.z as f64];
    let n = [t.width as f64, t.height as f64, t.depth as f64];
    let mut near = 0.0f64;
    let mut exit = f64::INFINITY;
    for a in 0..3 {
        if d[a] == 0.0 {
            if o[a].abs() > s[a] / 2.0 {
                return Ok(None);
            }
        } else {
            let one = (-s[a] / 2.0 - o[a]) / d[a];
            let other = (s[a] / 2.0 - o[a]) / d[a];
            near = near.max(one.min(other));
            exit = exit.min(one.max(other));
        }
    }
    if (exit - near).abs() < 1e-9 {
        return Err(());
    }
    if exit < near {
        return Ok(None);
    }
    let mut densities = Vec::new();
    for k in 0..steps {
        let at = near + (k as f64 + 0.5) * (exit - near) / steps as f64;
        let mut voxel = [0usize; 3];
        let mut sure = true;
        for a in 0..3 {
            let u = ((o[a] + at * d[a]) / s[a] + 0.5) * n[a];
            if (u - u.round()).abs() < 1e-6 {
                sure = false;
            }
            voxel[a] = (u.floor().max(0.0) as usize).min(n[a] as usize - 1);
        }
        let offset = (voxel[2] * t.height as usize + voxel[1]) * t.width as usize + voxel[0];
        densities.push(if sure { Some(t.data[offset]) } else { None });
    }
    Ok(Some(densities))
}

#[test]
fn march_agrees_with_the_march_in_floats() {
    let data: Vec<u8> = (0..60u32).map(|i| ((i * 37 + 11) % 251) as u8).collect();
    let t = texture(5, 4, 3, data);
    let mut seed: u64 = 0x2545_f491_4f6c_dd1d;
    let mut next = move |range: i64| -> i16 {
        seed ^= seed << 13;
        seed ^= seed >> 7;
        seed ^= seed << 17;
        ((seed % (2 * range as u64 + 1)) as i64 - range) as i16
    };
    let mut hits = 0;
    let mut misses = 0;
    for round in 0..4000 {
        let size = Extent {
            x: 1 + next(20).unsigned_abs(),
            y: 1 + next(20).unsigned_abs(),
            z: 1 + next(20).unsigned_abs(),
        };
        let r = ray((next(30), next(30), next(30)), (next(9), next(9), next(9)));
        let steps = 1 + (round % 13) as u32;
        let Ok(expected) = march_in_floats(&t, &size, &r, steps) else {
            continue;
        };
        if r.direction == (Point { x: 0, y: 0, z: 0 }) {
            assert_eq!(march(&t, &size, &r, steps), None);
            continue;
        }
        let found = march(&t, &size, &r, steps);
        match expected {
            None => {
                assert_eq!(found, None);
                misses += 1;
            }
            Some(expected) => {
                let found = found.unwrap();
                assert_eq!(found.len(), expected.len());
                for (f, e) in found.iter().zip(expected.iter()) {
                    if let Some(e) = e {
                        assert_eq!(f, e);
                    }
                }
                hits += 1;
            }
        }
    }
    assert!(hits > 100);
    assert!(misses > 100);
}
