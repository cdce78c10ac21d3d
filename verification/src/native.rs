//! The native call boundary.
//!
//! [`NativeCl`] stands for the raw OpenCL entry points, with each
//! two-phase call split into its size-probing and buffer-filling halves
//! so that no raw pointer crosses the boundary. The crate's enumeration
//! logic is verified against this trait for every possible reply, so it
//! promises nothing about what a method returns. [`ScriptedCl`] replays
//! fixed replies and counts every call, so tests can drive the protocol
//! and observe exactly which native calls were made.

use vstd::prelude::*;
use crate::types::{DeviceId, DeviceInfo, PlatformId, PlatformInfo};

verus! {

/// The raw native enumeration surface, one method per entry point and
/// phase. Implementations decide every reply freely; callers in this
/// crate are verified for all of them.
pub trait NativeCl {
    /// clGetPlatformIDs, probe half: the status and how many platforms
    /// exist.
    fn platform_count(&mut self) -> (i32, u32);

    /// clGetPlatformIDs, fill half: the status and the platform handles,
    /// for a buffer of `num_entries` entries.
    fn platform_list(&mut self, num_entries: u32) -> (i32, Vec<PlatformId>);

    /// clGetPlatformInfo, probe half: the status and the byte length of
    /// the requested attribute, trailing NUL included.
    fn platform_info_len(&mut self, platform: PlatformId, name: PlatformInfo) -> (i32, usize);

    /// clGetPlatformInfo, fill half: the status and the attribute's raw
    /// bytes, for a buffer of `len` bytes.
    fn platform_info_bytes(&mut self, platform: PlatformId, name: PlatformInfo, len: usize) -> (
        i32,
        Vec<u8>,
    );

    /// clGetDeviceIDs, probe half: the status and how many devices match
    /// the raw type filter on the platform.
    fn device_count(&mut self, platform: PlatformId, device_type: u64) -> (i32, u32);

    /// clGetDeviceIDs, fill half: the status and the device handles, for
    /// a buffer of `num_entries` entries.
    fn device_list(&mut self, platform: PlatformId, device_type: u64, num_entries: u32) -> (
        i32,
        Vec<DeviceId>,
    );

    /// clGetDeviceInfo, probe half: the status and the byte length of the
    /// requested attribute.
    fn device_info_len(&mut self, device: DeviceId, name: DeviceInfo) -> (i32, usize);

    /// clGetDeviceInfo, fill half: the status and the attribute's raw
    /// bytes, for a buffer of `len` bytes.
    fn device_info_bytes(&mut self, device: DeviceId, name: DeviceInfo, len: usize) -> (
        i32,
        Vec<u8>,
    );
}

/// The next value of a call counter; pinned at the top of its range
/// rather than wrapping.
fn bump(calls: usize) -> (r: usize)
    ensures
        calls < usize::MAX ==> r == calls + 1,
{
    if calls < usize::MAX {
        calls + 1
    } else {
        calls
    }
}

/// A scripted native layer: every entry point answers from its own fixed
/// queue of replies, in order, and counts how often it was called. Past
/// the end of its queue an entry point reports status `1`, which maps to
/// `Error::Unknown`. Fill the queues directly and read the counters back
/// to check which native calls the protocol made.
pub struct ScriptedCl {
    /// Replies for `platform_count`, in order.
    pub platform_count_replies: Vec<(i32, u32)>,
    /// Replies for `platform_list`, in order.
    pub platform_list_replies: Vec<(i32, Vec<PlatformId>)>,
    /// Replies for `platform_info_len`, in order.
    pub platform_info_len_replies: Vec<(i32, usize)>,
    /// Replies for `platform_info_bytes`, in order.
    pub platform_info_bytes_replies: Vec<(i32, Vec<u8>)>,
    /// Replies for `device_count`, in order.
    pub device_count_replies: Vec<(i32, u32)>,
    /// Replies for `device_list`, in order.
    pub device_list_replies: Vec<(i32, Vec<DeviceId>)>,
    /// Replies for `device_info_len`, in order.
    pub device_info_len_replies: Vec<(i32, usize)>,
    /// Replies for `device_info_bytes`, in order.
    pub device_info_bytes_replies: Vec<(i32, Vec<u8>)>,
    /// How many times `platform_count` was called.
    pub platform_count_calls: usize,
    /// How many times `platform_list` was called.
    pub platform_list_calls: usize,
    /// How many times `platform_info_len` was called.
    pub platform_info_len_calls: usize,
    /// How many times `platform_info_bytes` was called.
    pub platform_info_bytes_calls: usize,
    /// How many times `device_count` was called.
    pub device_count_calls: usize,
    /// How many times `device_list` was called.
    pub device_list_calls: usize,
    /// How many times `device_info_len` was called.
    pub device_info_len_calls: usize,
    /// How many times `device_info_bytes` was called.
    pub device_info_bytes_calls: usize,
}

impl ScriptedCl {
    /// A script with no replies and all counters at zero.
    pub fn new() -> (r: ScriptedCl)
        ensures
            r.platform_count_replies@.len() == 0,
            r.platform_list_replies@.len() == 0,
            r.platform_info_len_replies@.len() == 0,
            r.platform_info_bytes_replies@.len() == 0,
            r.device_count_replies@.len() == 0,
            r.device_list_replies@.len() == 0,
            r.device_info_len_replies@.len() == 0,
            r.device_info_bytes_replies@.len() == 0,
            r.platform_count_calls == 0,
            r.platform_list_calls == 0,
            r.platform_info_len_calls == 0,
            r.platform_info_bytes_calls == 0,
            r.device_count_calls == 0,
            r.device_list_calls == 0,
            r.device_info_len_calls == 0,
            r.device_info_bytes_calls == 0,
    {
        ScriptedCl {
            platform_count_replies: Vec::new(),
            platform_list_replies: Vec::new(),
            platform_info_len_replies: Vec::new(),
            platform_info_bytes_replies: Vec::new(),
            device_count_replies: Vec::new(),
            device_list_replies: Vec::new(),
            device_info_len_replies: Vec::new(),
            device_info_bytes_replies: Vec::new(),
            platform_count_calls: 0,
            platform_list_calls: 0,
            platform_info_len_calls: 0,
            platform_info_bytes_calls: 0,
            device_count_calls: 0,
            device_list_calls: 0,
            device_info_len_calls: 0,
            device_info_bytes_calls: 0,
        }
    }
}

impl NativeCl for ScriptedCl {
    fn platform_count(&mut self) -> (i32, u32) {
        let i = self.platform_count_calls;
        self.platform_count_calls = bump(i);
        if i < self.platform_count_replies.len() {
            self.platform_count_replies[i]
        } else {
            (1, 0)
        }
    }

    fn platform_list(&mut self, num_entries: u32) -> (i32, Vec<PlatformId>) {
        let i = self.platform_list_calls;
        self.platform_list_calls = bump(i);
        if i < self.platform_list_replies.len() {
            let reply = &self.platform_list_replies[i];
            (reply.0, reply.1.clone())
        } else {
            (1, Vec::new())
        }
    }

    fn platform_info_len(&mut self, platform: PlatformId, name: PlatformInfo) -> (i32, usize) {
        let i = self.platform_info_len_calls;
        self.platform_info_len_calls = bump(i);
        if i < self.platform_info_len_replies.len() {
            self.platform_info_len_replies[i]
        } else {
            (1, 0)
        }
    }

    fn platform_info_bytes(&mut self, platform: PlatformId, name: PlatformInfo, len: usize) -> (
        i32,
        Vec<u8>,
    ) {
        let i = self.platform_info_bytes_calls;
        self.platform_info_bytes_calls = bump(i);
        if i < self.platform_info_bytes_replies.len() {
            let reply = &self.platform_info_bytes_replies[i];
            (reply.0, reply.1.clone())
        } else {
            (1, Vec::new())
        }
    }

    fn device_count(&mut self, platform: PlatformId, device_type: u64) -> (i32, u32) {
        let i = self.device_count_calls;
        self.device_count_calls = bump(i);
        if i < self.device_count_replies.len() {
            self.device_count_replies[i]
        } else {
            (1, 0)
        }
    }

    fn device_list(&mut self, platform: PlatformId, device_type: u64, num_entries: u32) -> (
        i32,
        Vec<DeviceId>,
    ) {
        let i = self.device_list_calls;
        self.device_list_calls = bump(i);
        if i < self.device_list_replies.len() {
            let reply = &self.device_list_replies[i];
            (reply.0, reply.1.clone())
        } else {
            (1, Vec::new())
        }
    }

    fn device_info_len(&mut self, device: DeviceId, name: DeviceInfo) -> (i32, usize) {
        let i = self.device_info_len_calls;
        self.device_info_len_calls = bump(i);
        if i < self.device_info_len_replies.len() {
            self.device_info_len_replies[i]
        } else {
            (1, 0)
        }
    }

    fn device_info_bytes(&mut self, device: DeviceId, name: DeviceInfo, len: usize) -> (
        i32,
        Vec<u8>,
    ) {
        let i = self.device_info_bytes_calls;
        self.device_info_bytes_calls = bump(i);
        if i < self.device_info_bytes_replies.len() {
            let reply = &self.device_info_bytes_replies[i];
            (reply.0, reply.1.clone())
        } else {
            (1, Vec::new())
        }
    }
}

} // verus!
