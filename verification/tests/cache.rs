use starfield::cache::RenderCache;
use starfield::geometry::Size;

fn size(width: u64, height: u64) -> Size {
    Size { width, height }
}

#[test]
fn a_new_cache_holds_nothing() {
    let cache: RenderCache<u32> = RenderCache::new();
    assert!(cache.entry().is_none());
    assert_eq!(cache.rebuilds(), 0);
    assert!(!cache.holds(size(800, 600)));
    assert!(!cache.holds(size(0, 0)));
}

#[test]
fn a_draw_on_an_empty_cache_renders() {
    let mut cache: RenderCache<String> = RenderCache::new();
    let mut calls = 0;
    let drawn = cache
        .draw(size(800, 600), |s| {
            calls += 1;
            format!("{}x{}", s.width, s.height)
        })
        .clone();
    assert_eq!(drawn, "800x600");
    assert_eq!(calls, 1);
    assert_eq!(cache.rebuilds(), 1);
    assert!(cache.holds(size(800, 600)));
    assert!(!cache.holds(size(600, 800)));
    let entry = cache.entry().unwrap();
    assert_eq!(entry.size, size(800, 600));
    assert_eq!(entry.geometry, "800x600");
}

#[test]
fn a_second_draw_at_the_same_size_does_not_render() {
    let mut cache: RenderCache<u32> = RenderCache::new();
    let mut calls = 0;
    let first = *cache.draw(size(800, 600), |_| {
        calls += 1;
        7
    });
    let second = *cache.draw(size(800, 600), |_| {
        calls += 1;
        8
    });
    assert_eq!(calls, 1);
    assert_eq!(first, 7);
    assert_eq!(second, 7);
    assert_eq!(cache.rebuilds(), 1);
}

#[test]
fn many_draws_at_one_size_render_once() {
    let mut cache: RenderCache<u64> = RenderCache::new();
    let mut calls = 0u64;
    for round in 0..50u64 {
        let drawn = *cache.draw(size(10, 20), |_| {
            calls += 1;
            round + 100
        });
        assert_eq!(drawn, 100);
    }
    assert_eq!(calls, 1);
    assert_eq!(cache.rebuilds(), 1);
}

#[test]
fn a_clear_makes_the_next_draw_render_at_the_same_size() {
    let mut cache: RenderCache<u32> = RenderCache::new();
    let mut calls = 0;
    cache.draw(size(800, 600), |_| {
        calls += 1;
        1
    });
    cache.clear();
    assert!(cache.entry().is_none());
    assert!(!cache.holds(size(800, 600)));
    assert_eq!(cache.rebuilds(), 1);
    let drawn = *cache.draw(size(800, 600), |_| {
        calls += 1;
        2
    });
    assert_eq!(drawn, 2);
    assert_eq!(calls, 2);
    assert_eq!(cache.rebuilds(), 2);
}

#[test]
fn a_clear_makes_the_next_draw_render_at_another_size() {
    let mut cache: RenderCache<u32> = RenderCache::new();
    cache.draw(size(800, 600), |_| 1);
    cache.clear();
    let drawn = *cache.draw(size(1, 1), |_| 2);
    assert_eq!(drawn, 2);
    assert_eq!(cache.rebuilds(), 2);
    assert!(cache.holds(size(1, 1)));
    assert!(!cache.holds(size(800, 600)));
}

#[test]
fn a_clear_of_an_empty_cache_changes_nothing() {
    let mut cache: RenderCache<u32> = RenderCache::new();
    cache.clear();
    cache.clear();
    assert!(cache.entry().is_none());
    assert_eq!(cache.rebuilds(), 0);
    assert_eq!(*cache.draw(size(3, 4), |_| 9), 9);
    assert_eq!(cache.rebuilds(), 1);
}

#[test]
fn at_most_one_render_between_two_clears() {
    let mut cache: RenderCache<u32> = RenderCache::new();
    let mut calls = 0u32;
    for round in 0..10u32 {
        for _ in 0..5 {
            let drawn = *cache.draw(size(800, 600), |_| {
                calls += 1;
                round
            });
            assert_eq!(drawn, round);
        }
        assert_eq!(calls, round + 1);
        cache.clear();
    }
    assert_eq!(cache.rebuilds(), 10);
}

#[test]
fn a_new_size_replaces_what_was_held() {
    let mut cache: RenderCache<String> = RenderCache::new();
    cache.draw(size(800, 600), |_| String::from("small"));
    let drawn = cache.draw(size(1024, 768), |_| String::from("large")).clone();
    assert_eq!(drawn, "large");
    assert_eq!(cache.rebuilds(), 2);
    assert!(cache.holds(size(1024, 768)));
    assert!(!cache.holds(size(800, 600)));
    assert_eq!(cache.entry().unwrap().geometry, "large");
    let back = cache.draw(size(800, 600), |_| String::from("small again")).clone();
    assert_eq!(back, "small again");
    assert_eq!(cache.rebuilds(), 3);
}

#[test]
fn a_size_differs_if_either_extent_differs() {
    let mut cache: RenderCache<u32> = RenderCache::new();
    cache.draw(size(800, 600), |_| 1);
    assert_eq!(*cache.draw(size(800, 601), |_| 2), 2);
    assert_eq!(*cache.draw(size(801, 601), |_| 3), 3);
    assert_eq!(*cache.draw(size(801, 601), |_| 4), 3);
    assert_eq!(cache.rebuilds(), 3);
}

#[test]
fn the_render_function_is_given_the_size_asked_for() {
    let mut cache: RenderCache<Size> = RenderCache::new();
    assert_eq!(*cache.draw(size(12, 34), |s| s), size(12, 34));
    assert_eq!(*cache.draw(size(0, 0), |s| s), size(0, 0));
}

#[test]
fn the_default_cache_is_a_new_one() {
    let mut cache: RenderCache<u32> = Default::default();
    assert!(cache.entry().is_none());
    assert_eq!(cache.rebuilds(), 0);
    assert_eq!(*cache.draw(size(1, 2), |_| 3), 3);
    assert_eq!(cache.rebuilds(), 1);
}
