//! Playback devices: descriptors and enumeration.
//!
//! A descriptor pairs the engine's opaque device id with a human-readable
//! name. The engine reports the name as raw text that may fail to decode; the
//! binding substitutes a fixed placeholder then, and otherwise passes the
//! descriptor through unvalidated — an empty or nonsensical descriptor from
//! the engine stays as it is.
//!
//! Enumeration follows the engine's two-call pattern: the process asks the
//! engine for a device count, sizes a buffer to exactly that capacity, lets
//! the engine fill it, and hands the filled entries in here. The engine may
//! fill fewer entries than it first counted when devices change between the
//! two calls; that race is tolerated, never treated as an error, and the
//! catalog yields exactly the entries that were filled.

use crate::context::Context;
use crate::native::NativeCall;
use vstd::prelude::*;

verus! {

/// The name a descriptor carries when the engine's name text could not be
/// decoded.
pub open spec fn undecodable_device_name() -> Seq<char> {
    "Undefined"@
}

/// A handle to an audio playback device: the engine's opaque id bytes and
/// the decoded name.
pub struct Device {
    /// The engine's device id, carried through as opaque bytes.
    pub native_id: Vec<u8>,
    /// The decoded device name, or the fixed placeholder.
    pub name: String,
}

impl Device {
    /// Builds a descriptor from what the engine reported: the opaque id
    /// bytes, and the name if it decoded as text. An undecodable name
    /// becomes the fixed placeholder; nothing else is validated.
    pub fn from_native(native_id: Vec<u8>, name: Option<String>) -> (r: Device)
        ensures
            r.native_id@ == native_id@,
            name is Some ==> r.name@ == name.unwrap()@,
            name is None ==> r.name@ == undecodable_device_name(),
    {
        let name = match name {
            Some(n) => n,
            None => "Undefined".to_owned(),
        };
        Device { native_id, name }
    }

    /// Returns the name of the audio device.
    pub fn name(&self) -> (r: &str)
        ensures
            r@ == self.name@,
    {
        self.name.as_str()
    }

    /// An owned copy of this descriptor, byte for byte and character for
    /// character.
    pub fn duplicate(&self) -> (r: Device)
        ensures
            r.native_id@ == self.native_id@,
            r.name@ == self.name@,
    {
        let mut bytes: Vec<u8> = Vec::new();
        let mut i: usize = 0;
        while i < self.native_id.len()
            invariant
                i <= self.native_id.len(),
                bytes@ == self.native_id@.subrange(0, i as int),
            decreases self.native_id.len() - i,
        {
            bytes.push(self.native_id[i]);
            i = i + 1;
        }
        proof {
            assert(bytes@ =~= self.native_id@);
        }
        Device { native_id: bytes, name: self.name.clone() }
    }
}

/// Yields the default output device, as a single pass-through of the
/// engine's answer to one `get-default-device` query. It always succeeds:
/// whatever descriptor the engine reports — even an empty or invalid one
/// when no device exists — is handed on without validation.
pub fn default_output_device(context: &Context, native_id: Vec<u8>, name: Option<String>) -> (r:
    Device)
    requires
        context.count.live(),
    ensures
        r.native_id@ == native_id@,
        name is Some ==> r.name@ == name.unwrap()@,
        name is None ==> r.name@ == undecodable_device_name(),
{
    Device::from_native(native_id, name)
}

/// A catalog over the playback devices one enumeration reported.
///
/// Finite, yielded once in the engine-reported order, consumed
/// destructively: each descriptor is produced at most once and the catalog
/// cannot be restarted. The catalog borrows the context — it holds a shared
/// ownership reference taken at enumeration time and given back through
/// [`Devices::release`].
pub struct Devices {
    /// The descriptors not yet yielded, in engine-reported order.
    pub remaining: Vec<Device>,
}

impl Devices {
    /// Yields the next descriptor in engine-reported order, or `None` once
    /// the catalog is exhausted.
    pub fn next(&mut self) -> (r: Option<Device>)
        ensures
            old(self).remaining@.len() == 0 ==> r is None && final(self).remaining@
                == old(self).remaining@,
            old(self).remaining@.len() > 0 ==> r == Some(old(self).remaining@[0])
                && final(self).remaining@ == old(self).remaining@.drop_first(),
    {
        if self.remaining.len() == 0 {
            None
        } else {
            let d = self.remaining.remove(0);
            proof {
                assert(self.remaining@ =~= old(self).remaining@.drop_first());
            }
            Some(d)
        }
    }

    /// How many descriptors are still to come.
    pub fn len(&self) -> (r: usize)
        ensures
            r == self.remaining@.len(),
    {
        self.remaining.len()
    }

    /// Gives the catalog's shared ownership of the context back. When the
    /// catalog was the context's last owner, the returned call tears the
    /// session down.
    pub fn release(self, context: &mut Context) -> (call: Option<NativeCall>)
        requires
            old(context).count.live(),
        ensures
            final(context).session == old(context).session,
            final(context).count.owners == old(context).count.owners - 1,
            call == if old(context).count.owners == 1 {
                Some(NativeCall::CloseContext { session: old(context).session })
            } else {
                None::<NativeCall>
            },
    {
        context.release()
    }
}

/// Builds the device catalog from one enumeration round.
///
/// `announced` is the engine's answer to the count query and the exact
/// capacity that was set aside; `reported` holds the entries the engine then
/// filled, which may be fewer when devices changed in between — the catalog
/// simply yields fewer entries than announced. The catalog takes a shared
/// ownership reference to the context, so the session outlives it.
pub fn output_devices(context: &mut Context, announced: usize, reported: Vec<Device>) -> (r:
    Devices)
    requires
        old(context).count.live(),
        old(context).count.owners < u64::MAX,
        reported@.len() <= announced,
    ensures
        r.remaining@ == reported@,
        final(context).session == old(context).session,
        final(context).count.owners == old(context).count.owners + 1,
{
    context.retain();
    Devices { remaining: reported }
}

} // verus!
