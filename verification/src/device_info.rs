//! The decoder of the device-identity payload: a sequential, bounds-checked
//! walk that yields the target id, the firmware version, the capability
//! flags, and the bootloader- or application-mode tail.
use vstd::prelude::*;

use vstd::utf8::{decode_utf8, valid_utf8};

use crate::errors::Error;
use crate::reader::{spec_be_u32, Reader};
use crate::text::utf8_to_string;

verus! {

/// What the device says about itself.
#[derive(Debug, Clone)]
pub struct DeviceInfo {
    pub target_id: u32,
    pub version: String,
    pub flags: Vec<u8>,
    pub is_bootloader: bool,
    pub se_version: Option<String>,
    pub se_target_id: u32,
    pub mcu_version: Option<String>,
}

/// The mathematical value of a device identity.
#[verifier::ext_equal]
pub struct DeviceInfoV {
    pub target_id: u32,
    pub version: Seq<char>,
    pub flags: Seq<u8>,
    pub is_bootloader: bool,
    pub se_version: Option<Seq<char>>,
    pub se_target_id: u32,
    pub mcu_version: Option<Seq<char>>,
}

impl View for DeviceInfo {
    type V = DeviceInfoV;

    open spec fn view(&self) -> DeviceInfoV {
        DeviceInfoV {
            target_id: self.target_id,
            version: self.version@,
            flags: self.flags@,
            is_bootloader: self.is_bootloader,
            se_version: match self.se_version {
                Some(s) => Some(s@),
                None => None,
            },
            se_target_id: self.se_target_id,
            mcu_version: match self.mcu_version {
                Some(s) => Some(s@),
                None => None,
            },
        }
    }
}

/// Whether a target id puts the device in bootloader mode: everything but
/// the application pattern in the high nibble does.
pub open spec fn spec_is_bootloader(target_id: u32) -> bool {
    (target_id & 0xF0000000) != 0x30000000
}

/// The bootloader-mode tail at position `i`: one length-prefixed part that
/// is either a secure-element version text followed by a length-prefixed
/// four-byte secure-element target id, or — when shorter than five bytes —
/// exactly the four bytes of the secure-element target id itself.
pub open spec fn spec_parse_bootloader_tail(
    d: Seq<u8>,
    i: int,
    target_id: u32,
    version: Seq<char>,
    flags: Seq<u8>,
) -> Result<DeviceInfoV, Error>
    recommends
        0 <= i <= d.len(),
{
    if d.len() < i + 1 {
        Err(Error::TruncatedData)
    } else {
        let p1l = d[i] as int;
        if d.len() < i + 1 + p1l {
            Err(Error::TruncatedData)
        } else {
            let part1 = d.subrange(i + 1, i + 1 + p1l);
            if p1l >= 5 {
                if !valid_utf8(part1) {
                    Err(Error::EncodingError)
                } else {
                    let j = i + 1 + p1l;
                    if d.len() < j + 1 {
                        Err(Error::TruncatedData)
                    } else {
                        let p2l = d[j] as int;
                        if d.len() < j + 1 + p2l {
                            Err(Error::TruncatedData)
                        } else if p2l != 4 {
                            Err(Error::TruncatedData)
                        } else {
                            Ok(
                                DeviceInfoV {
                                    target_id,
                                    version,
                                    flags,
                                    is_bootloader: true,
                                    se_version: Some(decode_utf8(part1)),
                                    se_target_id: spec_be_u32(d.subrange(j + 1, j + 5)),
                                    mcu_version: None,
                                },
                            )
                        }
                    }
                }
            } else if p1l != 4 {
                Err(Error::TruncatedData)
            } else {
                Ok(
                    DeviceInfoV {
                        target_id,
                        version,
                        flags,
                        is_bootloader: true,
                        se_version: None,
                        se_target_id: spec_be_u32(part1),
                        mcu_version: None,
                    },
                )
            }
        }
    }
}

/// The application-mode tail at position `i`: a length-prefixed MCU version
/// text, with one trailing NUL byte stripped before decoding.
pub open spec fn spec_parse_app_tail(
    d: Seq<u8>,
    i: int,
    target_id: u32,
    version: Seq<char>,
    flags: Seq<u8>,
) -> Result<DeviceInfoV, Error>
    recommends
        0 <= i <= d.len(),
{
    if d.len() < i + 1 {
        Err(Error::TruncatedData)
    } else {
        let ml = d[i] as int;
        if d.len() < i + 1 + ml {
            Err(Error::TruncatedData)
        } else {
            let raw = d.subrange(i + 1, i + 1 + ml);
            let mcu = if raw.len() > 0 && raw[raw.len() - 1] == 0 {
                raw.take(raw.len() - 1)
            } else {
                raw
            };
            if !valid_utf8(mcu) {
                Err(Error::EncodingError)
            } else {
                Ok(
                    DeviceInfoV {
                        target_id,
                        version,
                        flags,
                        is_bootloader: false,
                        se_version: Some(version),
                        se_target_id: target_id,
                        mcu_version: Some(decode_utf8(mcu)),
                    },
                )
            }
        }
    }
}

/// The device identity a payload stands for: a four-byte big-endian target
/// id, a length-prefixed version text, a length-prefixed flag bitset, then
/// the bootloader- or application-mode tail as the target id dictates.
pub open spec fn spec_parse_device_info(d: Seq<u8>) -> Result<DeviceInfoV, Error> {
    if d.len() < 4 {
        Err(Error::TruncatedData)
    } else {
        let target_id = spec_be_u32(d.subrange(0, 4));
        if d.len() < 5 {
            Err(Error::TruncatedData)
        } else {
            let vl = d[4] as int;
            if d.len() < 5 + vl {
                Err(Error::TruncatedData)
            } else {
                let vbytes = d.subrange(5, 5 + vl);
                if d.len() < 5 + vl + 1 {
                    Err(Error::TruncatedData)
                } else if !valid_utf8(vbytes) {
                    Err(Error::EncodingError)
                } else {
                    let version = decode_utf8(vbytes);
                    let fl = d[5 + vl] as int;
                    if d.len() < 6 + vl + fl {
                        Err(Error::TruncatedData)
                    } else {
                        let flags = d.subrange(6 + vl, 6 + vl + fl);
                        let i = 6 + vl + fl;
                        if spec_is_bootloader(target_id) {
                            spec_parse_bootloader_tail(d, i, target_id, version, flags)
                        } else {
                            spec_parse_app_tail(d, i, target_id, version, flags)
                        }
                    }
                }
            }
        }
    }
}

impl DeviceInfo {
    /// Decode one device-identity payload. Any underflow fails with
    /// `TruncatedData`, any invalid text with `EncodingError`.
    pub fn decode(data: &Vec<u8>) -> (r: Result<DeviceInfo, Error>)
        ensures
            r matches Ok(info) ==> spec_parse_device_info(data@) == Ok::<DeviceInfoV, Error>(
                info@,
            ),
            r matches Err(e) ==> spec_parse_device_info(data@) == Err::<DeviceInfoV, Error>(e),
    {
        let mut rd = Reader::new(data);
        let target_id = match rd.read_be_u32() {
            Ok(v) => v,
            Err(e) => {
                return Err(e);
            },
        };
        let vl = match rd.read_u8() {
            Ok(v) => v,
            Err(e) => {
                return Err(e);
            },
        };
        let vbytes = match rd.read_bytes(vl as usize) {
            Ok(v) => v,
            Err(e) => {
                return Err(e);
            },
        };
        let fl = match rd.read_u8() {
            Ok(v) => v,
            Err(e) => {
                return Err(e);
            },
        };
        let version = match utf8_to_string(&vbytes) {
            Some(s) => s,
            None => {
                return Err(Error::EncodingError);
            },
        };
        let flags = match rd.read_bytes(fl as usize) {
            Ok(v) => v,
            Err(e) => {
                return Err(e);
            },
        };
        let is_bootloader = (target_id & 0xF0000000) != 0x30000000;
        if is_bootloader {
            let p1l = match rd.read_u8() {
                Ok(v) => v,
                Err(e) => {
                    return Err(e);
                },
            };
            let part1 = match rd.read_bytes(p1l as usize) {
                Ok(v) => v,
                Err(e) => {
                    return Err(e);
                },
            };
            if p1l >= 5 {
                let se_version = match utf8_to_string(&part1) {
                    Some(s) => s,
                    None => {
                        return Err(Error::EncodingError);
                    },
                };
                let p2l = match rd.read_u8() {
                    Ok(v) => v,
                    Err(e) => {
                        return Err(e);
                    },
                };
                let part2 = match rd.read_bytes(p2l as usize) {
                    Ok(v) => v,
                    Err(e) => {
                        return Err(e);
                    },
                };
                if p2l != 4 {
                    return Err(Error::TruncatedData);
                }
                let se_target_id = (part2[0] as u32) * 0x1000000 + (part2[1] as u32) * 0x10000
                    + (part2[2] as u32) * 0x100 + (part2[3] as u32);
                let info = DeviceInfo {
                    target_id,
                    version,
                    flags,
                    is_bootloader,
                    se_version: Some(se_version),
                    se_target_id,
                    mcu_version: None,
                };
                proof {
                    assert(spec_parse_device_info(data@) == Ok::<DeviceInfoV, Error>(info@));
                }
                Ok(info)
            } else {
                if p1l != 4 {
                    return Err(Error::TruncatedData);
                }
                let se_target_id = (part1[0] as u32) * 0x1000000 + (part1[1] as u32) * 0x10000
                    + (part1[2] as u32) * 0x100 + (part1[3] as u32);
                let info = DeviceInfo {
                    target_id,
                    version,
                    flags,
                    is_bootloader,
                    se_version: None,
                    se_target_id,
                    mcu_version: None,
                };
                proof {
                    assert(spec_parse_device_info(data@) == Ok::<DeviceInfoV, Error>(info@));
                }
                Ok(info)
            }
        } else {
            let ml = match rd.read_u8() {
                Ok(v) => v,
                Err(e) => {
                    return Err(e);
                },
            };
            let mut mcu = match rd.read_bytes(ml as usize) {
                Ok(v) => v,
                Err(e) => {
                    return Err(e);
                },
            };
            if mcu.len() > 0 && mcu[mcu.len() - 1] == 0 {
                mcu.pop();
            }
            let mcu_version = match utf8_to_string(&mcu) {
                Some(s) => s,
                None => {
                    return Err(Error::EncodingError);
                },
            };
            let info = DeviceInfo {
                target_id,
                version: version.clone(),
                flags,
                is_bootloader,
                se_version: Some(version),
                se_target_id: target_id,
                mcu_version: Some(mcu_version),
            };
            proof {
                assert(spec_parse_device_info(data@) == Ok::<DeviceInfoV, Error>(info@));
            }
            Ok(info)
        }
    }
}

} // verus!
