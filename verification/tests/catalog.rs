use ez_audio::context::Context;
use ez_audio::device::{default_output_device, output_devices, Device};
use ez_audio::errors::{decode_load_status, AudioError};
use ez_audio::handle::Void;
use ez_audio::ids::IdAllocator;
use ez_audio::loader::AudioLoader;
use ez_audio::native::NativeCall;
use ez_audio::table::HandleTable;

fn open_context(session: u64) -> Context {
    Context::new(session, true).expect("context open reported success")
}

fn load_handle(
    ctx: &mut Context,
    ids: &mut IdAllocator,
    table: &mut HandleTable,
    path: &str,
) -> ez_audio::handle::AudioHandle<(), Void> {
    let pending = AudioLoader::new(String::from(path))
        .load(ctx, ids, true)
        .expect("load request");
    let (res, _) = pending.complete(0, 100, ctx, table);
    res.expect("successful load")
}

#[test]
fn name_round_trip() {
    let mut ctx = open_context(1);
    let mut ids = IdAllocator::new();
    let mut table = HandleTable::new();
    let handle = load_handle(&mut ctx, &mut ids, &mut table, "clips/song.ogg");
    assert_eq!(handle.name(), "song.ogg");
    assert_eq!(handle.path(), "clips/song.ogg");

    let no_name = load_handle(&mut ctx, &mut ids, &mut table, "/");
    assert_eq!(no_name.name(), "Undefined", "a path with no file name falls back");
}

#[test]
fn name_edge_cases() {
    let mut ctx = open_context(1);
    let mut ids = IdAllocator::new();
    let mut table = HandleTable::new();
    for (path, expected) in [
        ("song.ogg", "song.ogg"),
        ("a/b/c.mp3", "c.mp3"),
        ("clips/", "clips"),
        ("", "Undefined"),
        ("..", "Undefined"),
        (".", "Undefined"),
        ("./", "Undefined"),
        ("a/..", "Undefined"),
        ("a/.", "a"),
        ("foo.txt/.", "foo.txt"),
        ("a/./.", "a"),
        ("notes.", "notes."),
        ("dir///", "dir"),
    ] {
        let handle = load_handle(&mut ctx, &mut ids, &mut table, path);
        assert_eq!(handle.name(), expected, "name of {:?}", path);
    }
}

#[test]
fn default_device_passes_through_even_when_empty() {
    let ctx = open_context(5);
    // No device at all: the engine reports an empty descriptor, and it is
    // handed on unvalidated.
    let device = default_output_device(&ctx, Vec::new(), None);
    assert_eq!(device.name(), "Undefined");
    assert!(device.native_id.is_empty());

    let named = default_output_device(&ctx, vec![1, 2, 3], Some(String::from("Speakers")));
    assert_eq!(named.name(), "Speakers");
    assert_eq!(named.native_id, vec![1, 2, 3]);
}

#[test]
fn enumeration_yields_reported_devices_in_order() {
    let mut ctx = open_context(5);
    let reported = vec![
        Device::from_native(vec![1], Some(String::from("A"))),
        Device::from_native(vec![2], None),
        Device::from_native(vec![3], Some(String::from("C"))),
    ];
    // The engine announced four devices but filled only three: the race is
    // tolerated and the catalog yields exactly what was filled.
    let mut devices = output_devices(&mut ctx, 4, reported);
    assert_eq!(devices.len(), 3);
    assert_eq!(devices.next().expect("first").name(), "A");
    assert_eq!(devices.next().expect("second").name(), "Undefined");
    assert_eq!(devices.next().expect("third").name(), "C");
    assert!(devices.next().is_none(), "the catalog is consumed destructively");
    assert!(devices.next().is_none());

    // The catalog held a share of the context; giving it back while the
    // caller still owns one closes nothing.
    assert!(devices.release(&mut ctx).is_none());
    assert!(ctx.release().is_some());
}

#[test]
fn empty_enumeration_still_works() {
    let mut ctx = open_context(5);
    let mut devices = output_devices(&mut ctx, 0, Vec::new());
    assert_eq!(devices.len(), 0);
    assert!(devices.next().is_none());
    assert!(devices.release(&mut ctx).is_none());
}

#[test]
fn set_output_device_carries_descriptor() {
    let mut ctx = open_context(5);
    let mut ids = IdAllocator::new();
    let mut table = HandleTable::new();
    let handle = load_handle(&mut ctx, &mut ids, &mut table, "clip.ogg");
    let device = Device::from_native(vec![9, 9], Some(String::from("Headphones")));
    match handle.set_output_device(&device) {
        NativeCall::SetDevice { id, session, target } => {
            assert_eq!(id, 0);
            assert_eq!(session, 5);
            assert_eq!(target.native_id, vec![9, 9]);
            assert_eq!(target.name(), "Headphones");
        }
        _ => panic!("set_output_device must issue the set-device call"),
    }
}

#[test]
fn status_decoding_matches_native_contract() {
    assert!(decode_load_status(0).is_ok());
    assert!(matches!(decode_load_status(-1), Err(AudioError::DecoderError)));
    assert!(matches!(decode_load_status(-2), Err(AudioError::DeviceError)));
    assert!(matches!(decode_load_status(1), Err(AudioError::UnknownError)));
    assert!(matches!(decode_load_status(i32::MIN), Err(AudioError::UnknownError)));
}

#[test]
fn error_messages_name_each_kind() {
    assert_eq!(AudioError::FileError.message(), "unable to find file");
    assert_eq!(AudioError::DecoderError.message(), "unable to decode file");
    assert_eq!(AudioError::DeviceError.message(), "invalid device");
    assert_eq!(AudioError::ContextError.message(), "unable to initialize context");
    assert_eq!(AudioError::UnknownError.message(), "unknown error");
}

#[test]
fn stale_completion_routes_nowhere() {
    let mut ctx = open_context(5);
    let mut ids = IdAllocator::new();
    let mut table = HandleTable::new();
    let mut first = load_handle(&mut ctx, &mut ids, &mut table, "one.ogg");
    let _second = load_handle(&mut ctx, &mut ids, &mut table, "two.ogg");
    assert_eq!(table.len(), 2);
    assert_eq!(table.find(0), Some(0));
    assert_eq!(table.find(1), Some(1));

    let calls = first.release(&mut ctx, &mut table);
    assert!(matches!(calls.0, Some(NativeCall::UnloadClip { id: 0, .. })));
    // A notification for the unloaded id finds nothing and is ignored; the
    // id never names the other clip.
    assert_eq!(table.find(0), None);
    assert_eq!(table.find(1), Some(0));
    assert_eq!(table.find(42), None, "an unknown id routes nowhere");
}
