use vstd::prelude::*;
use vstd::string::StrSliceExecFns;
use vstd::string::StringSliceAdditionalSpecFns;

use crate::conversion::TryCopyTo;
use crate::cstr::cstr_fits;
use crate::cstr::cstr_written;
use crate::cstr::write_cstr;
use crate::errors::BufferError;
use crate::errors::PfError;

verus! {

/// The name of a network interface.
#[derive(Clone, Debug, PartialEq, Eq, Hash)]
pub struct InterfaceName {
    pub name: String,
}

impl InterfaceName {
    /// The name as a string slice.
    pub fn as_str(&self) -> (r: &str)
        ensures
            r@ == self.name@,
    {
        self.name.as_str()
    }
}

/// The interface matcher of a rule: any interface, or one by name.
#[derive(Clone, Debug, PartialEq, Eq, Hash)]
pub enum Interface {
    Any,
    Name(InterfaceName),
}

impl Default for Interface {
    /// By default a rule matches any interface.
    fn default() -> (r: Self)
        ensures
            r == Interface::Any,
    {
        Interface::Any
    }
}

impl Interface {
    /// Match the interface called `name`.
    pub fn from_name(name: &str) -> (r: Self)
        ensures
            r matches Interface::Name(n) && n.name@ == name@,
    {
        Interface::Name(InterfaceName { name: name.to_owned() })
    }

    /// The bytes the matcher stores in an interface-name buffer: the name's
    /// UTF-8 bytes, or no bytes at all for `Any`.
    pub open spec fn name_bytes(self) -> Seq<u8> {
        match self {
            Interface::Any => Seq::empty(),
            Interface::Name(n) => vstd::utf8::encode_utf8(n.name@),
        }
    }

    /// What writing the matcher into an interface-name buffer yields: the
    /// nul-terminated name, or `InvalidInterfaceName` when it cannot be
    /// stored.
    pub open spec fn ifname_encoding(self, old_buf: Seq<u8>) -> Result<Seq<u8>, PfError> {
        if cstr_fits(self.name_bytes(), old_buf.len()) {
            Ok(cstr_written(old_buf, self.name_bytes()))
        } else {
            Err(
                PfError::InvalidInterfaceName(
                    if self.name_bytes().len() >= old_buf.len() {
                        BufferError::DoesNotFit
                    } else {
                        BufferError::EmbeddedNul
                    },
                ),
            )
        }
    }
}

impl TryCopyTo<Vec<u8>> for Interface {
    /// The buffer receives the nul-terminated interface name; bytes past
    /// the terminator keep their old value.
    open spec fn try_copied(&self, old_dst: Seq<u8>) -> Result<Seq<u8>, PfError> {
        self.ifname_encoding(old_dst)
    }

    fn try_copy_to(&self, dst: &mut Vec<u8>) -> (r: Result<(), PfError>) {
        let name_vec: Vec<u8> = match self {
            Interface::Any => Vec::new(),
            Interface::Name(n) => n.name.as_str().as_bytes_vec(),
        };
        match write_cstr(name_vec.as_slice(), dst) {
            Ok(()) => Ok(()),
            Err(e) => Err(PfError::InvalidInterfaceName(e)),
        }
    }
}

/// Raw interface flag: skip the interface when matching (`PFI_IFLAG_SKIP`).
pub const PFI_IFLAG_SKIP: i32 = 256;

/// A set of interface flags, carried as the raw flag word the kernel
/// reports.
#[derive(Clone, Copy, Debug, PartialEq, Eq, Hash, Structural)]
pub struct InterfaceFlags {
    pub bits: i32,
}

impl InterfaceFlags {
    /// The flag set with exactly the given raw bits.
    pub fn from_bits_retain(bits: i32) -> (r: Self)
        ensures
            r.bits == bits,
    {
        InterfaceFlags { bits }
    }

    /// Whether the skip flag is among the bits.
    pub fn has_skip(&self) -> (r: bool)
        ensures
            r == (self.bits & PFI_IFLAG_SKIP == PFI_IFLAG_SKIP),
    {
        self.bits & PFI_IFLAG_SKIP == PFI_IFLAG_SKIP
    }
}

/// One interface as the kernel describes it: its name bytes and its flag
/// word.
#[derive(Clone, Debug, PartialEq, Eq, Hash)]
pub struct InterfaceDescription {
    pub name: Vec<u8>,
    pub flags: InterfaceFlags,
}

impl InterfaceDescription {
    /// Decode a raw kernel interface record: the name is read out of its
    /// fixed buffer up to the terminator, and a buffer with no terminator
    /// is rejected.
    pub fn try_from_kif(name_buffer: &[u8], flags: i32) -> (r: Result<
        InterfaceDescription,
        PfError,
    >)
        ensures
            match r {
                Ok(description) => crate::cstr::is_cstr_of(name_buffer@, description.name@)
                    && description.flags.bits == flags,
                Err(e) => !crate::cstr::has_nul(name_buffer@) && e == PfError::UnterminatedString,
            },
    {
        let name = crate::cstr::read_cstr(name_buffer)?;
        Ok(InterfaceDescription { name, flags: InterfaceFlags::from_bits_retain(flags) })
    }
}

} // verus!
