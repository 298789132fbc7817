use dm_spine_bevy::playback::{route_request, take_init_requests, PendingAnimation};

fn anim(track: usize, name: &str, looping: bool) -> PendingAnimation {
    PendingAnimation { track, name: name.to_string(), looping }
}

#[test]
fn request_before_load_is_queued_and_replaces() {
    let mut pending = Some(anim(0, "idle", true));
    let d = route_request(false, &mut pending, anim(0, "walk", true));
    assert!(d.is_none());
    let d = route_request(false, &mut pending, anim(1, "shoot", false));
    assert!(d.is_none());
    let p = pending.unwrap();
    assert_eq!((p.track, p.name.as_str(), p.looping), (1, "shoot", false));
}

#[test]
fn request_after_load_is_dispatched() {
    let mut pending: Option<String> = Some("goblin".to_string());
    let d = route_request(true, &mut pending, "goblingirl".to_string());
    assert_eq!(d.as_deref(), Some("goblingirl"));
    assert_eq!(pending.as_deref(), Some("goblin"));
}

#[test]
fn init_takes_queued_requests_once() {
    let mut pending_anim = None;
    let mut pending_skin = None;
    assert!(route_request(false, &mut pending_anim, anim(0, "walk", true)).is_none());
    assert!(route_request(false, &mut pending_skin, "goblin".to_string()).is_none());
    let r = take_init_requests(&mut pending_anim, &mut pending_skin);
    let a = r.animation.unwrap();
    assert_eq!((a.track, a.name.as_str(), a.looping), (0, "walk", true));
    assert_eq!(r.skin.as_deref(), Some("goblin"));
    assert!(pending_anim.is_none() && pending_skin.is_none());
    let again = take_init_requests(&mut pending_anim, &mut pending_skin);
    assert!(again.animation.is_none() && again.skin.is_none());
}
