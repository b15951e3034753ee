use crossfade::image_set::ImageSet;
use crossfade::render_loop::RenderLoop;
use crossfade::scheduler::Phase;

fn three_slides() -> ImageSet {
    ImageSet::new(vec![
        String::from("/acervo/a.jpg"),
        String::from("/acervo/b.jpg"),
        String::from("/acervo/c.jpg"),
    ])
}

#[test]
fn empty_slide_sequence_creates_nothing() {
    // images = []: the whole subsystem is a no-op — no loop object, so
    // nothing is ever scheduled and no GPU resource is ever requested.
    let images = ImageSet::new(Vec::new());
    assert!(RenderLoop::new(images, 5000, 3000, 640, 480, 0).is_none());
}

#[test]
fn mount_starts_clean() {
    let rl = RenderLoop::new(three_slides(), 5000, 3000, 640, 480, 0).unwrap();
    assert!(rl.running);
    assert_eq!(rl.frame_count, 0);
    assert!(rl.textures.slot0_bound.is_none());
    assert!(rl.textures.slot1_bound.is_none());
    assert_eq!(rl.scheduler.current_idx, 0);
    assert_eq!(rl.scheduler.next_idx, 1);
    assert_eq!(rl.resize.cached_width, 640);
    assert_eq!(rl.resize.cached_height, 480);
}

#[test]
fn upload_waits_for_decode_and_happens_once() {
    let mut rl = RenderLoop::new(three_slides(), 5000, 3000, 640, 480, 0).unwrap();

    // Nothing decoded yet: no upload is requested, the slots keep
    // showing whatever they held (here: nothing).
    let a = rl.tick(16, 640, 480);
    assert_eq!(a.upload_slot0, None);
    assert_eq!(a.upload_slot1, None);
    assert!(rl.textures.slot0_bound.is_none());

    // Slide 0 decodes: the next tick uploads it into slot 0, once.
    rl.note_image_ready(0);
    let a = rl.tick(32, 640, 480);
    assert_eq!(a.upload_slot0, Some(0));
    assert_eq!(a.upload_slot1, None);
    assert_eq!(rl.textures.slot0_bound, Some(0));

    // The slot already holds slide 0: no further upload is requested.
    let a = rl.tick(48, 640, 480);
    assert_eq!(a.upload_slot0, None);
    assert_eq!(rl.textures.slot0_bound, Some(0));

    // Slide 1 decodes later and fills slot 1 the same way, without
    // touching slot 0.
    rl.note_image_ready(1);
    let a = rl.tick(64, 640, 480);
    assert_eq!(a.upload_slot1, Some(1));
    assert_eq!(rl.textures.slot1_bound, Some(1));
    assert_eq!(rl.textures.slot0_bound, Some(0));
}

#[test]
fn failed_decode_stalls_only_its_own_slot() {
    let mut rl = RenderLoop::new(three_slides(), 5000, 3000, 640, 480, 0).unwrap();
    // Slide 1 never reports ready; slide 0 still reaches its slot and
    // ticking goes on undisturbed.
    rl.note_image_ready(0);
    for t in 1..10u64 {
        rl.tick(t * 16, 640, 480);
    }
    assert_eq!(rl.textures.slot0_bound, Some(0));
    assert_eq!(rl.textures.slot1_bound, None);
}

#[test]
fn resize_only_on_throttled_ticks_and_mismatch() {
    let mut rl = RenderLoop::new(three_slides(), 5000, 3000, 640, 480, 0).unwrap();

    // The surface grows right away, but ticks 1..=19 never look at it.
    for t in 1..=19u64 {
        let a = rl.tick(t, 800, 600);
        assert_eq!(a.resize_to, None);
        assert_eq!(rl.resize.cached_width, 640);
    }
    // Tick 20 looks, sees the mismatch and resynchronizes.
    let a = rl.tick(20, 800, 600);
    assert_eq!(a.resize_to, Some((800, 600)));
    assert_eq!(rl.resize.cached_width, 800);
    assert_eq!(rl.resize.cached_height, 600);

    // Tick 40 looks again, but the sizes now agree: no resync.
    for t in 21..=39u64 {
        assert_eq!(rl.tick(t, 800, 600).resize_to, None);
    }
    assert_eq!(rl.tick(40, 800, 600).resize_to, None);
}

#[test]
fn tick_reports_exact_blend_weight() {
    let mut rl = RenderLoop::new(three_slides(), 5000, 3000, 640, 480, 0).unwrap();
    let a = rl.tick(5001, 640, 480);
    assert_eq!(rl.scheduler.phase, Phase::Transitioning);
    assert_eq!((a.mix_numer, a.mix_denom), (0, 3000));
    let a = rl.tick(6501, 640, 480);
    assert_eq!((a.mix_numer, a.mix_denom), (1500, 3000));
    let a = rl.tick(8001, 640, 480);
    assert_eq!((a.mix_numer, a.mix_denom), (0, 3000));
    assert_eq!(rl.scheduler.current_idx, 1);
}

#[test]
fn stop_halts_the_loop() {
    let mut rl = RenderLoop::new(three_slides(), 5000, 3000, 640, 480, 0).unwrap();
    rl.tick(16, 640, 480);
    rl.stop();
    assert!(!rl.running);
    assert_eq!(rl.frame_count, 1);
}
