use ez_audio::context::Context;
use ez_audio::device::Device;
use ez_audio::errors::AudioError;
use ez_audio::handle::OnEnd;
use ez_audio::ids::IdAllocator;
use ez_audio::loader::AudioLoader;
use ez_audio::native::NativeCall;
use ez_audio::table::HandleTable;
use ez_audio::volume::Volume;

struct Increment;

impl OnEnd<u64> for Increment {
    fn on_end(&self, state: &mut u64) {
        *state += 1;
    }
}

fn open_context(session: u64) -> Context {
    Context::new(session, true).expect("context open reported success")
}

#[test]
fn context_open_failure_is_context_error() {
    match Context::new(1, false) {
        Err(AudioError::ContextError) => {}
        _ => panic!("a failed open must report ContextError"),
    }
}

#[test]
fn context_close_emitted_exactly_once() {
    let mut ctx = open_context(7);
    ctx.retain();
    ctx.retain();
    assert!(ctx.release().is_none());
    assert!(ctx.release().is_none());
    match ctx.release() {
        Some(NativeCall::CloseContext { session }) => assert_eq!(session, 7),
        _ => panic!("the last owner must close the session"),
    }
}

#[test]
fn load_missing_file_consumes_nothing() {
    let ctx = open_context(3);
    let mut ids = IdAllocator::new();
    let loader = AudioLoader::new(String::from("gone.ogg"));
    match loader.load(&ctx, &mut ids, false) {
        Err(AudioError::FileError) => {}
        _ => panic!("a missing file must report FileError"),
    }
    // No id was consumed: the next load still gets id 0.
    let loader = AudioLoader::new(String::from("here.ogg"));
    let pending = loader.load(&ctx, &mut ids, true).expect("load request");
    assert_eq!(pending.id, 0);
}

#[test]
fn load_request_carries_configuration() {
    let ctx = open_context(9);
    let mut ids = IdAllocator::new();
    let loader = AudioLoader::new(String::from("clips/song.ogg"))
        .volume(Volume::from_bits(0.5f32.to_bits()));
    let pending = loader.load(&ctx, &mut ids, true).expect("load request");
    match &pending.request {
        NativeCall::LoadClip { id, session, path, device, volume } => {
            assert_eq!(*id, 0);
            assert_eq!(*session, 9);
            assert_eq!(path.as_str(), "clips/song.ogg");
            assert!(device.is_none());
            assert_eq!(volume.bits, 0.5f32.to_bits());
        }
        _ => panic!("the request must be the load-clip call"),
    }
}

#[test]
fn loader_builder_accumulates_configuration() {
    let ctx = open_context(11);
    let mut ids = IdAllocator::new();
    let loader = AudioLoader::new(String::from("first.ogg"))
        .path(String::from("second.ogg"))
        .device(Device::from_native(vec![7], Some(String::from("Out"))))
        .volume(Volume::from_bits(0.75f32.to_bits()))
        .user_data(41u64)
        .on_end(Increment);
    let pending = loader.load(&ctx, &mut ids, true).expect("load request");
    match &pending.request {
        NativeCall::LoadClip { path, device, volume, .. } => {
            assert_eq!(path.as_str(), "second.ogg");
            let device = device.as_ref().expect("configured device");
            assert_eq!(device.native_id, vec![7]);
            assert_eq!(device.name(), "Out");
            assert_eq!(volume.bits, 0.75f32.to_bits());
        }
        _ => panic!("the request must be the load-clip call"),
    }
}

#[test]
fn load_status_codes_map_to_error_kinds() {
    let mut ctx = open_context(4);
    let mut table = HandleTable::new();
    let mut ids = IdAllocator::new();
    for (status, expect_decoder, expect_device, expect_unknown) in [
        (-1, true, false, false),
        (-2, false, true, false),
        (5, false, false, true),
        (-3, false, false, true),
    ] {
        let loader = AudioLoader::new(String::from("clip.ogg"));
        let pending = loader.load(&ctx, &mut ids, true).expect("load request");
        let (res, registration) = pending.complete(status, 0, &mut ctx, &mut table);
        assert!(registration.is_none(), "a failed load must not register");
        match res {
            Err(AudioError::DecoderError) => assert!(expect_decoder),
            Err(AudioError::DeviceError) => assert!(expect_device),
            Err(AudioError::UnknownError) => assert!(expect_unknown),
            _ => panic!("unexpected completion result"),
        }
    }
    assert_eq!(table.len(), 0, "failed loads register nothing");
    assert!(ctx.release().is_some(), "the context must still be the sole owner");
}

#[test]
fn loaded_clip_starts_stopped() {
    let mut ctx = open_context(2);
    let mut ids = IdAllocator::new();
    let mut table = HandleTable::new();
    let loader = AudioLoader::new(String::from("clip.ogg"));
    let pending = loader.load(&ctx, &mut ids, true).expect("load request");
    let (res, registration) = pending.complete(0, 1500, &mut ctx, &mut table);
    let handle = res.expect("successful load");
    assert!(registration.is_some(), "a successful load registers exactly once");
    assert!(!handle.is_playing(), "a fresh clip is not playing before play");
    assert!(handle.is_paused());
    assert_eq!(handle.duration(), 1500);
}

#[test]
fn play_and_pause_observations_negate() {
    let mut ctx = open_context(2);
    let mut ids = IdAllocator::new();
    let mut table = HandleTable::new();
    let pending = AudioLoader::new(String::from("clip.ogg"))
        .load(&ctx, &mut ids, true)
        .expect("load request");
    let (res, _) = pending.complete(0, 100, &mut ctx, &mut table);
    let mut handle = res.expect("successful load");

    assert_eq!(handle.is_paused(), !handle.is_playing());
    match handle.play() {
        NativeCall::Play { id, session } => {
            assert_eq!(id, 0);
            assert_eq!(session, 2);
        }
        _ => panic!("play must issue the play call"),
    }
    assert!(handle.is_playing());
    assert_eq!(handle.is_paused(), !handle.is_playing());
    match handle.stop() {
        NativeCall::Stop { .. } => {}
        _ => panic!("stop must issue the stop call"),
    }
    assert!(!handle.is_playing());
    assert_eq!(handle.is_paused(), !handle.is_playing());
    handle.play();
    match handle.reset() {
        NativeCall::Reset { .. } => {}
        _ => panic!("reset must issue the reset call"),
    }
    assert!(!handle.is_playing(), "reset leaves the clip stopped at the start");
}

#[test]
fn volume_round_trips_unclamped() {
    let mut ctx = open_context(2);
    let mut ids = IdAllocator::new();
    let mut table = HandleTable::new();
    let pending = AudioLoader::new(String::from("clip.ogg"))
        .load(&ctx, &mut ids, true)
        .expect("load request");
    let (res, _) = pending.complete(0, 100, &mut ctx, &mut table);
    let mut handle = res.expect("successful load");

    assert_eq!(handle.volume().bits(), 1.0f32.to_bits(), "unit gain is the default");
    for value in [0.0f32, 0.25f32, 1.0f32, 2.5f32, -1.0f32] {
        let call = handle.set_volume(Volume::from_bits(value.to_bits()));
        match call {
            NativeCall::SetVolume { value: sent, .. } => {
                assert_eq!(sent.bits, value.to_bits(), "the gain goes out unclamped");
            }
            _ => panic!("set_volume must issue the set-volume call"),
        }
        assert_eq!(f32::from_bits(handle.volume().bits()), value);
    }
}

#[test]
fn completion_increments_counter_state() {
    let mut ctx = open_context(2);
    let mut ids = IdAllocator::new();
    let mut table = HandleTable::new();
    let pending = AudioLoader::new(String::from("clip.ogg"))
        .user_data(0u64)
        .on_end(Increment)
        .load(&ctx, &mut ids, true)
        .expect("load request");
    let (res, _) = pending.complete(0, 100, &mut ctx, &mut table);
    let mut handle = res.expect("successful load");

    assert_eq!(*handle.user_data(), 0);
    handle.play();
    handle.on_clip_end();
    assert_eq!(*handle.user_data(), 1, "one completion runs the callback once");
    assert!(!handle.is_playing(), "end of clip stops playback on its own");
    handle.play();
    handle.on_clip_end();
    assert_eq!(*handle.user_data(), 2, "two completions run the callback twice");
}

#[test]
fn state_mutators_apply_whole() {
    let mut ctx = open_context(2);
    let mut ids = IdAllocator::new();
    let mut table = HandleTable::new();
    let pending = AudioLoader::new(String::from("clip.ogg"))
        .user_data(10u64)
        .on_end(Increment)
        .load(&ctx, &mut ids, true)
        .expect("load request");
    let (res, _) = pending.complete(0, 100, &mut ctx, &mut table);
    let mut handle = res.expect("successful load");

    // The two writers — controlling side and completion path — each run one
    // full application under exclusive access: the result is a sequential
    // composition, never an interleaving.
    handle.modify_user_data(|s: &u64| *s * 3);
    handle.on_clip_end();
    assert_eq!(*handle.user_data(), 10 * 3 + 1);

    handle.set_user_data(100);
    assert_eq!(*handle.user_data(), 100);
}

#[test]
fn unload_emitted_exactly_once_by_last_owner() {
    let mut ctx = open_context(6);
    let mut ids = IdAllocator::new();
    let mut table = HandleTable::new();
    let pending = AudioLoader::new(String::from("clip.ogg"))
        .load(&ctx, &mut ids, true)
        .expect("load request");
    let (res, _) = pending.complete(0, 100, &mut ctx, &mut table);
    let mut handle = res.expect("successful load");
    assert_eq!(table.len(), 1);

    handle.share();
    handle.share();
    let calls = handle.release(&mut ctx, &mut table);
    assert!(calls.0.is_none() && calls.1.is_none());
    let calls = handle.release(&mut ctx, &mut table);
    assert!(calls.0.is_none() && calls.1.is_none());
    assert_eq!(table.len(), 1, "the clip stays registered until the last owner lets go");
    let calls = handle.release(&mut ctx, &mut table);
    match calls.0 {
        Some(NativeCall::UnloadClip { id, session }) => {
            assert_eq!(id, 0);
            assert_eq!(session, 6);
        }
        _ => panic!("the last owner must unload the clip"),
    }
    assert_eq!(table.len(), 0, "the id names no clip afterwards");
}

#[test]
fn context_closes_only_after_clips_released() {
    let mut ctx = open_context(8);
    let mut ids = IdAllocator::new();
    let mut table = HandleTable::new();
    let pending = AudioLoader::new(String::from("clip.ogg"))
        .load(&ctx, &mut ids, true)
        .expect("load request");
    let (res, _) = pending.complete(0, 100, &mut ctx, &mut table);
    let mut handle = res.expect("successful load");

    // The caller lets its own context reference go first: the clip still
    // holds one, so the session stays open.
    assert!(ctx.release().is_none(), "the session must outlive the clip");
    let calls = handle.release(&mut ctx, &mut table);
    match calls.0 {
        Some(NativeCall::UnloadClip { .. }) => {}
        _ => panic!("the last owner must unload the clip"),
    }
    match calls.1 {
        Some(NativeCall::CloseContext { session }) => assert_eq!(session, 8),
        _ => panic!("releasing the last clip closes the abandoned session"),
    }
}

#[test]
fn ids_are_distinct_and_monotonic() {
    let ctx = open_context(1);
    let mut ids = IdAllocator::new();
    let mut previous: Option<u64> = None;
    for _ in 0..5 {
        let pending = AudioLoader::new(String::from("clip.ogg"))
            .load(&ctx, &mut ids, true)
            .expect("load request");
        if let Some(p) = previous {
            assert!(pending.id > p, "ids grow and are never reused");
        }
        previous = Some(pending.id);
    }
}
