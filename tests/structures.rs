use raytracer::bvh::{BvhLayout, Child, SpanNode};
use raytracer::integrator::{bounce_step, Step, Surface};
use raytracer::onb::ONB;
use raytracer::perlin::{Perlin, POINT_COUNT};
use raytracer::pool::WorkerPool;
use raytracer::rtw::RtwImage;
use raytracer::texture::{checker_is_even, SolidColor};

fn leaves_of(nodes: &[SpanNode], k: usize, out: &mut Vec<usize>) {
    for c in [nodes[k].left, nodes[k].right] {
        match c {
            Child::Object(i) => out.push(i),
            Child::Node(a) => {
                assert!(a < k);
                leaves_of(nodes, a, out)
            }
        }
    }
}

#[test]
fn bvh_empty_has_no_root() {
    let l = BvhLayout::new(0);
    assert_eq!(l.root(), None);
    assert!(l.nodes().is_empty());
    assert_eq!(l.object_count(), 0);
}

#[test]
fn bvh_single_object_duplicated() {
    let l = BvhLayout::new(1);
    assert_eq!(l.root(), Some(0));
    let n = l.nodes()[0];
    assert_eq!((n.start, n.end), (0, 1));
    assert!(matches!(n.left, Child::Object(0)));
    assert!(matches!(n.right, Child::Object(0)));
}

#[test]
fn bvh_two_objects_one_each() {
    let l = BvhLayout::new(2);
    let n = l.nodes()[0];
    assert_eq!(l.nodes().len(), 1);
    assert!(matches!(n.left, Child::Object(0)));
    assert!(matches!(n.right, Child::Object(1)));
}

#[test]
fn bvh_five_objects_median_split() {
    let l = BvhLayout::new(5);
    let nodes = l.nodes();
    let root = l.root().unwrap();
    assert_eq!(root, nodes.len() - 1);
    assert_eq!((nodes[root].start, nodes[root].end), (0, 5));
    match (nodes[root].left, nodes[root].right) {
        (Child::Node(a), Child::Node(b)) => {
            assert_eq!((nodes[a].start, nodes[a].end), (0, 2));
            assert_eq!((nodes[b].start, nodes[b].end), (2, 5));
        }
        _ => panic!("a span of five is split into two nodes"),
    }
}

fn expected_node_count(span: usize) -> usize {
    if span <= 2 {
        1
    } else {
        1 + expected_node_count(span / 2) + expected_node_count(span - span / 2)
    }
}

#[test]
fn bvh_node_count() {
    assert_eq!(BvhLayout::new(5).nodes().len(), 5);
    assert_eq!(BvhLayout::new(3).nodes().len(), 3);
    for n in 1..300 {
        assert_eq!(BvhLayout::new(n).nodes().len(), expected_node_count(n));
    }
}

#[test]
fn bvh_leaves_cover_all_objects() {
    for n in [1usize, 2, 3, 7, 200] {
        let l = BvhLayout::new(n);
        let mut out = Vec::new();
        leaves_of(l.nodes(), l.root().unwrap(), &mut out);
        out.sort();
        out.dedup();
        assert_eq!(out, (0..n).collect::<Vec<_>>());
    }
}

#[test]
fn perlin_corner_in_range() {
    let p = Perlin::new();
    for i in -300..300 {
        let r = p.corner(i, 2 * i, -i);
        assert!(r < POINT_COUNT);
    }
    assert!(p.corner(i32::MIN, i32::MAX, 0) < POINT_COUNT);
}

#[test]
fn perlin_corner_repeats_every_table_length() {
    let p = Perlin::new();
    for i in -20..20 {
        assert_eq!(p.corner(i, 3, 5), p.corner(i + 256, 3, 5));
        assert_eq!(p.corner(1, i, 5), p.corner(1, i - 512, 5));
        assert_eq!(p.corner(-1, 0, i), p.corner(255, 0, i));
    }
}

#[test]
fn perlin_tables_are_permutations() {
    // With j and k fixed the corner index is the x table entry xor a constant,
    // so over one period it takes every slot exactly once.
    let p = Perlin::new();
    for (j, k) in [(0, 0), (7, -3), (-100, 255)] {
        let mut seen: Vec<usize> = (0..256).map(|i| p.corner(i, j, k)).collect();
        seen.sort();
        assert_eq!(seen, (0..POINT_COUNT).collect::<Vec<_>>());
    }
}

#[test]
fn image_unloaded_is_magenta() {
    let img = RtwImage::empty();
    assert_eq!(img.width(), 0);
    assert_eq!(img.height(), 0);
    assert_eq!(img.pixel_data(0, 0), [255, 0, 255]);
    assert_eq!(img.pixel_data(-5, 99), [255, 0, 255]);
}

#[test]
fn image_from_bytes_checks_size() {
    assert!(RtwImage::from_bytes(2, 2, vec![0; 12]).is_some());
    assert!(RtwImage::from_bytes(2, 2, vec![0; 11]).is_none());
    assert!(RtwImage::from_bytes(0, 2, vec![]).is_none());
    assert!(RtwImage::from_bytes(-1, -1, vec![0; 3]).is_none());
}

#[test]
fn image_pixel_fetch_clamps() {
    let bytes: Vec<u8> = (0..18).collect();
    let img = RtwImage::from_bytes(3, 2, bytes).unwrap();
    assert_eq!(img.width(), 3);
    assert_eq!(img.height(), 2);
    assert_eq!(img.pixel_data(0, 0), [0, 1, 2]);
    assert_eq!(img.pixel_data(2, 0), [6, 7, 8]);
    assert_eq!(img.pixel_data(1, 1), [12, 13, 14]);
    assert_eq!(img.pixel_data(-4, -4), [0, 1, 2]);
    assert_eq!(img.pixel_data(9, 9), [15, 16, 17]);
    assert_eq!(img.pixel_data(9, 0), [6, 7, 8]);
}

#[test]
fn image_clamp_bounds() {
    let img = RtwImage::empty();
    assert_eq!(img.clamp(-1, 0, 10), 0);
    assert_eq!(img.clamp(5, 0, 10), 5);
    assert_eq!(img.clamp(10, 0, 10), 9);
    assert_eq!(img.clamp(i32::MAX, 0, 10), 9);
}

#[test]
fn pool_admits_up_to_limit() {
    let mut p = WorkerPool::new(2);
    assert!(p.try_admit());
    assert!(p.try_admit());
    assert!(!p.try_admit());
    assert_eq!(p.active(), 2);
    p.release();
    assert_eq!(p.active(), 1);
    assert!(p.try_admit());
    assert!(!p.try_admit());
}

#[test]
fn depth_zero_is_black() {
    for s in [Surface::Miss, Surface::Absorbs, Surface::Specular, Surface::Diffuse] {
        assert_eq!(bounce_step(0, s), Step::Black);
    }
}

#[test]
fn bounce_steps() {
    assert_eq!(bounce_step(5, Surface::Miss), Step::Background);
    assert_eq!(bounce_step(5, Surface::Absorbs), Step::Emission);
    assert_eq!(bounce_step(5, Surface::Specular), Step::Specular { depth: 4 });
    assert_eq!(bounce_step(1, Surface::Diffuse), Step::Mixture { depth: 0 });
}

#[test]
fn checker_parity() {
    assert!(checker_is_even(0, 0, 0));
    assert!(!checker_is_even(1, 0, 0));
    assert!(checker_is_even(-1, 1, 0));
    assert!(!checker_is_even(-1, 0, 0));
    assert!(checker_is_even(i32::MAX, i32::MAX, 0));
    assert!(!checker_is_even(i32::MIN, i32::MIN, -1));
}

#[test]
fn solid_color_constant() {
    let s = SolidColor::new((1u8, 2u8, 3u8));
    assert_eq!(s.value(), (1, 2, 3));
}

#[test]
fn onb_axes_in_order() {
    let b = ONB::new([1, 0, 0], [0, 1, 0], [0, 0, 1]);
    assert_eq!(b.u(), [1, 0, 0]);
    assert_eq!(b.v(), [0, 1, 0]);
    assert_eq!(b.w(), [0, 0, 1]);
}

#[test]
fn shuffle_step_swaps_two_entries() {
    let mut p = vec![10, 11, 12, 13];
    Perlin::shuffle_step(&mut p, 3, 1);
    assert_eq!(p, vec![10, 13, 12, 11]);
    Perlin::shuffle_step(&mut p, 2, 2);
    assert_eq!(p, vec![10, 13, 12, 11]);
    Perlin::shuffle_step(&mut p, 1, 0);
    assert_eq!(p, vec![13, 10, 12, 11]);
}
