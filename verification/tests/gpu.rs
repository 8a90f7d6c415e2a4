//! What the renderer decides about a device that refuses, and what it draws.

use growforge::constants::VIEW_SURFACE_REJECTION_LIMIT;
use growforge::gpu::{
    begin_frame, choose_format, frame_acquired, frame_drawn, frame_presented, resized,
    scene_viewport, Acquisition, FrameStep, LayerBuffers, RenderStep, SurfaceAction, SurfaceHealth,
    SurfaceStatus,
};
use growforge::scene::{Aabb, Layer, LayerMesh, Scene};

#[test]
fn a_rejected_frame_is_retried_until_the_limit_and_then_given_up_on() {
    let mut health = SurfaceHealth::default();
    for streak in 1..VIEW_SURFACE_REJECTION_LIMIT {
        assert_eq!(
            health.observe(SurfaceStatus::Rejected),
            SurfaceAction::Retry { streak },
            "rejection {streak} of {} is still a retry",
            VIEW_SURFACE_REJECTION_LIMIT
        );
    }
    let streak = VIEW_SURFACE_REJECTION_LIMIT;
    assert_eq!(
        health.observe(SurfaceStatus::Rejected),
        SurfaceAction::GiveUp { streak },
        "the limit is what the viewer gives up at"
    );
}

#[test]
fn an_acquired_frame_clears_the_streak() {
    let mut health = SurfaceHealth::default();
    for _ in 0..VIEW_SURFACE_REJECTION_LIMIT - 1 {
        health.observe(SurfaceStatus::Rejected);
    }
    assert_eq!(health.observe(SurfaceStatus::Acquired), SurfaceAction::Draw);
    assert_eq!(
        health.observe(SurfaceStatus::Rejected),
        SurfaceAction::Retry { streak: 1 },
        "a drawn frame leaves nothing behind to give up on"
    );
}

#[test]
fn a_skipped_or_stale_frame_is_not_a_rejection_and_does_not_clear_one() {
    let mut health = SurfaceHealth::default();
    for _ in 0..VIEW_SURFACE_REJECTION_LIMIT * 2 {
        assert_eq!(health.observe(SurfaceStatus::Skipped), SurfaceAction::Skip);
        assert_eq!(
            health.observe(SurfaceStatus::Stale),
            SurfaceAction::Reconfigure
        );
    }

    assert_eq!(
        health.observe(SurfaceStatus::Rejected),
        SurfaceAction::Retry { streak: 1 }
    );
    health.observe(SurfaceStatus::Skipped);
    health.observe(SurfaceStatus::Stale);
    assert_eq!(
        health.observe(SurfaceStatus::Rejected),
        SurfaceAction::Retry { streak: 2 },
        "the streak carries across the answers that are not about the device"
    );
}

#[test]
fn a_frame_that_was_acquired_and_then_refused_counts_towards_the_same_limit() {
    let mut health = SurfaceHealth::default();
    // The surface would not hand this one over ...
    assert_eq!(
        health.observe(SurfaceStatus::Rejected),
        SurfaceAction::Retry { streak: 1 }
    );
    // ... and the device would not give this one its depth texture.
    assert_eq!(
        health.observe(SurfaceStatus::Rejected),
        SurfaceAction::Retry { streak: 2 },
        "where the refusal happened is not what the streak counts"
    );
    // A frame that really drew is what clears them both.
    assert_eq!(health.observe(SurfaceStatus::Acquired), SurfaceAction::Draw);
    assert_eq!(
        health.observe(SurfaceStatus::Rejected),
        SurfaceAction::Retry { streak: 1 }
    );
}

#[test]
fn a_reconfigure_the_device_refuses_ends_a_surface_that_is_always_stale() {
    let mut health = SurfaceHealth::default();
    let mut last = SurfaceAction::Skip;
    for _ in 0..VIEW_SURFACE_REJECTION_LIMIT {
        assert_eq!(
            health.observe(SurfaceStatus::Stale),
            SurfaceAction::Reconfigure
        );
        // And the reconfigure it asks for is refused.
        last = health.observe(SurfaceStatus::Rejected);
    }
    assert_eq!(
        last,
        SurfaceAction::GiveUp {
            streak: VIEW_SURFACE_REJECTION_LIMIT
        },
        "a surface nobody can reconfigure would otherwise be retried for ever"
    );
}

#[test]
fn every_answer_of_the_device_is_read_as_one_of_four() {
    for (answer, status) in [
        (Acquisition::Success, SurfaceStatus::Acquired),
        (Acquisition::Suboptimal, SurfaceStatus::Acquired),
        (Acquisition::Timeout, SurfaceStatus::Skipped),
        (Acquisition::Occluded, SurfaceStatus::Skipped),
        (Acquisition::Outdated, SurfaceStatus::Stale),
        (Acquisition::Lost, SurfaceStatus::Stale),
        (Acquisition::Validation, SurfaceStatus::Rejected),
    ] {
        assert_eq!(SurfaceStatus::of(answer), status);
    }
}

#[test]
fn a_streak_is_said_once_and_named_when_it_is_given_up_on() {
    let mut health = SurfaceHealth::default();
    match health.frame_over(SurfaceStatus::Rejected, Some("out of memory".to_string())) {
        FrameStep::Retry { say } => assert_eq!(
            say.as_deref(),
            Some("viewer surface out of memory; reconfiguring and retrying")
        ),
        other => panic!("{other:?}"),
    }
    match health.frame_over(SurfaceStatus::Rejected, Some("out of memory".to_string())) {
        FrameStep::Retry { say } => assert_eq!(say, None, "the streak was said twice"),
        other => panic!("{other:?}"),
    }
    let mut last = FrameStep::Done;
    for _ in 2..VIEW_SURFACE_REJECTION_LIMIT {
        last = health.frame_over(SurfaceStatus::Rejected, Some("out of memory".to_string()));
    }
    match last {
        FrameStep::GiveUp { message } => assert_eq!(
            message,
            format!(
                "out of memory, and {VIEW_SURFACE_REJECTION_LIMIT} consecutive frames of the \
                 viewer went the same way; the device did not come back"
            )
        ),
        other => panic!("{other:?}"),
    }
}

#[test]
fn a_refusal_that_says_nothing_is_explained() {
    let mut health = SurfaceHealth::default();
    match health.frame_over(SurfaceStatus::Rejected, None) {
        FrameStep::Retry { say } => assert_eq!(
            say.as_deref(),
            Some(
                "viewer surface the GPU rejected a frame; reconfiguring and retrying (the device \
                 may be resetting)"
            )
        ),
        other => panic!("{other:?}"),
    }
    let mut last = FrameStep::Done;
    for _ in 1..VIEW_SURFACE_REJECTION_LIMIT {
        last = health.frame_over(SurfaceStatus::Rejected, None);
    }
    match last {
        FrameStep::GiveUp { message } => assert_eq!(
            message,
            format!(
                "the GPU rejected {VIEW_SURFACE_REJECTION_LIMIT} consecutive frames of the \
                 viewer; the device was likely reset and did not come back"
            )
        ),
        other => panic!("{other:?}"),
    }
}

#[test]
fn a_refused_reconfigure_is_a_rejected_frame_and_a_granted_one_is_nothing() {
    let mut health = SurfaceHealth::default();
    assert!(matches!(
        health.frame_over(SurfaceStatus::Stale, None),
        FrameStep::Reconfigure
    ));
    assert!(matches!(health.reconfigured(None), FrameStep::Done));
    assert!(matches!(
        health.reconfigured(Some("no".to_string())),
        FrameStep::Retry { say: Some(_) }
    ));
    assert_eq!(
        health.observe(SurfaceStatus::Rejected),
        SurfaceAction::Retry { streak: 2 }
    );
}

#[test]
fn a_frame_stops_at_the_first_thing_the_device_refuses() {
    assert!(matches!(
        begin_frame(Some("no buffer".to_string())),
        RenderStep::Over {
            status: SurfaceStatus::Rejected,
            failure: Some(_)
        }
    ));
    assert!(matches!(begin_frame(None), RenderStep::Acquire));
    assert!(matches!(
        frame_acquired(Err("lost".to_string())),
        RenderStep::Over {
            status: SurfaceStatus::Rejected,
            failure: Some(_)
        }
    ));
    assert!(matches!(
        frame_acquired(Ok(Acquisition::Outdated)),
        RenderStep::Over {
            status: SurfaceStatus::Stale,
            failure: None
        }
    ));
    assert!(matches!(
        frame_acquired(Ok(Acquisition::Suboptimal)),
        RenderStep::Draw
    ));
    assert!(matches!(
        frame_drawn(Err("no depth".to_string())),
        RenderStep::Over {
            status: SurfaceStatus::Rejected,
            failure: Some(_)
        }
    ));
    assert!(matches!(frame_drawn(Ok(())), RenderStep::Present));
    assert!(matches!(
        frame_presented(Err("gone".to_string())),
        RenderStep::Over {
            status: SurfaceStatus::Rejected,
            failure: Some(_)
        }
    ));
    assert!(matches!(
        frame_presented(Ok(())),
        RenderStep::Over {
            status: SurfaceStatus::Acquired,
            failure: None
        }
    ));
}

fn something() -> Option<LayerMesh<u8>> {
    Some(LayerMesh {
        vertices: vec![0, 0, 0],
        bounds: Aabb::empty(),
    })
}

#[test]
fn opaque_layers_are_drawn_before_translucent_ones_and_only_where_there_is_a_buffer() {
    let mut scene: Scene<u8> = Scene::new();
    let mut buffers: LayerBuffers<u32> = LayerBuffers::new();
    for layer in [Layer::Keepout, Layer::Density, Layer::Loads, Layer::Domain] {
        scene.set(layer, something());
        buffers.uploaded(layer, Ok(1));
    }
    assert_eq!(
        buffers.draw_order(&scene),
        vec![Layer::Density, Layer::Loads, Layer::Domain, Layer::Keepout]
    );
    // A layer that is switched off is left out, and so is one the device
    // refused, whose refusal waits for the next frame.
    *scene.visibility_mut(Layer::Loads) = false;
    buffers.uploaded(Layer::Domain, Err("out of memory".to_string()));
    assert!(buffers.get(Layer::Domain).is_none());
    assert_eq!(
        buffers.draw_order(&scene),
        vec![Layer::Density, Layer::Keepout]
    );
    assert_eq!(buffers.take_refused().as_deref(), Some("out of memory"));
    assert_eq!(buffers.take_refused(), None);
    buffers.clear(Layer::Keepout);
    assert_eq!(buffers.draw_order(&scene), vec![Layer::Density]);
    assert_eq!(buffers.get(Layer::Density), Some(&1));
}

#[test]
fn a_viewport_is_never_wider_than_its_surface_nor_without_a_pixel() {
    assert_eq!(scene_viewport(900, 1280, 800), (900, 800));
    assert_eq!(scene_viewport(2000, 1280, 800), (1280, 800));
    assert_eq!(scene_viewport(0, 1280, 0), (1, 1));
    assert_eq!(scene_viewport(5, 0, 7), (1, 7));
}

#[test]
fn a_window_without_a_size_is_left_alone() {
    assert_eq!(resized(0, 800), None);
    assert_eq!(resized(1280, 0), None);
    assert_eq!(resized(1280, 800), Some((1280, 800)));
}

#[test]
fn a_plain_format_is_preferred_to_an_encoded_one() {
    assert_eq!(choose_format(&vec![true, true, false, false]), Some(2));
    assert_eq!(choose_format(&vec![true, true]), Some(0));
    assert_eq!(choose_format(&Vec::new()), None);
}
