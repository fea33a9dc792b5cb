//! What an instance is created from.
use vstd::prelude::*;

use vstd::utf8::encode_utf8;

use crate::vk;
use crate::GMResult;

verus! {

/// Description for instance creation: the application's name and the API
/// version the application is written against.
#[derive(Debug)]
pub struct InstanceDesc {
    pub app_name: String,
    pub api_version: u32,
}

/// The application name as the driver takes it: its bytes and a closing
/// zero byte; `None` when the name itself holds a zero byte.
pub open spec fn c_name(name: Seq<u8>) -> Option<Seq<u8>> {
    if exists|i: int| 0 <= i < name.len() && name[i] == 0u8 {
        None
    } else {
        Some(name.push(0u8))
    }
}

impl InstanceDesc {
    /// A description for an application written against version 1.0.
    pub fn new(app_name: String) -> (r: InstanceDesc)
        ensures
            r.app_name@ == app_name@,
            r.api_version == vk::API_VERSION_1_0,
    {
        InstanceDesc { app_name, api_version: vk::API_VERSION_1_0 }
    }

    /// The zero-terminated application name handed to the driver. A name
    /// that holds a zero byte cannot be passed and is refused with
    /// `InvalidValue`.
    pub fn application_name(&self) -> (r: Result<Vec<u8>, GMResult>)
        ensures
            match c_name(encode_utf8(self.app_name@)) {
                Some(b) => r matches Ok(v) && v@ == b,
                None => r == Err::<Vec<u8>, GMResult>(GMResult::InvalidValue),
            },
    {
        let bytes = self.app_name.as_str().as_bytes();
        let mut out: Vec<u8> = Vec::new();
        let mut i: usize = 0;
        while i < bytes.len()
            invariant
                i <= bytes@.len(),
                bytes@ == encode_utf8(self.app_name@),
                out@ == bytes@.subrange(0, i as int),
                forall|j: int| 0 <= j < i ==> bytes@[j] != 0u8,
            decreases bytes@.len() - i,
        {
            if bytes[i] == 0 {
                return Err(GMResult::InvalidValue);
            }
            out.push(bytes[i]);
            i = i + 1;
            assert(out@ =~= bytes@.subrange(0, i as int));
        }
        assert(out@ =~= bytes@);
        out.push(0);
        Ok(out)
    }
}

} // verus!
