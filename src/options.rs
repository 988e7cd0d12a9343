//! How a file is to be opened: a value made of flags.
use vstd::prelude::*;

verus! {

/// Flags for opening a file. Each setter records one flag and returns the
/// value for chaining. The platform-specific settings stay `None` until set,
/// so that the platform's default applies.
#[derive(Clone, Copy, Debug, PartialEq, Eq, Structural)]
pub struct OpenOptions {
    pub read: bool,
    pub write: bool,
    pub append: bool,
    pub truncate: bool,
    pub create: bool,
    pub create_new: bool,
    /// Permission bits of a file that the open creates (Unix).
    pub mode: Option<u32>,
    /// Extra flags passed to the OS open call.
    pub custom_flags: Option<i32>,
    /// Requested access rights (Windows).
    pub access_mode: Option<u32>,
    /// Sharing mode (Windows).
    pub share_mode: Option<u32>,
    /// File attributes of a file that the open creates (Windows).
    pub attributes: Option<u32>,
    /// Security quality-of-service flags (Windows).
    pub security_qos_flags: Option<u32>,
}

impl OpenOptions {
    /// The options with every flag off and every platform setting left to
    /// its default.
    pub open spec fn blank() -> OpenOptions {
        OpenOptions {
            read: false,
            write: false,
            append: false,
            truncate: false,
            create: false,
            create_new: false,
            mode: None,
            custom_flags: None,
            access_mode: None,
            share_mode: None,
            attributes: None,
            security_qos_flags: None,
        }
    }

    pub fn new() -> (r: OpenOptions)
        ensures
            r == OpenOptions::blank(),
    {
        OpenOptions {
            read: false,
            write: false,
            append: false,
            truncate: false,
            create: false,
            create_new: false,
            mode: None,
            custom_flags: None,
            access_mode: None,
            share_mode: None,
            attributes: None,
            security_qos_flags: None,
        }
    }

    pub fn read(&mut self, read: bool) -> (r: &mut OpenOptions)
        ensures
            *r == (OpenOptions { read, ..*old(self) }),
            *final(self) == *final(r),
    {
        self.read = read;
        self
    }

    pub fn write(&mut self, write: bool) -> (r: &mut OpenOptions)
        ensures
            *r == (OpenOptions { write, ..*old(self) }),
            *final(self) == *final(r),
    {
        self.write = write;
        self
    }

    pub fn append(&mut self, append: bool) -> (r: &mut OpenOptions)
        ensures
            *r == (OpenOptions { append, ..*old(self) }),
            *final(self) == *final(r),
    {
        self.append = append;
        self
    }

    pub fn truncate(&mut self, truncate: bool) -> (r: &mut OpenOptions)
        ensures
            *r == (OpenOptions { truncate, ..*old(self) }),
            *final(self) == *final(r),
    {
        self.truncate = truncate;
        self
    }

    pub fn create(&mut self, create: bool) -> (r: &mut OpenOptions)
        ensures
            *r == (OpenOptions { create, ..*old(self) }),
            *final(self) == *final(r),
    {
        self.create = create;
        self
    }

    pub fn create_new(&mut self, create_new: bool) -> (r: &mut OpenOptions)
        ensures
            *r == (OpenOptions { create_new, ..*old(self) }),
            *final(self) == *final(r),
    {
        self.create_new = create_new;
        self
    }

    pub fn mode(&mut self, mode: u32) -> (r: &mut OpenOptions)
        ensures
            *r == (OpenOptions { mode: Some(mode), ..*old(self) }),
            *final(self) == *final(r),
    {
        self.mode = Some(mode);
        self
    }

    pub fn custom_flags(&mut self, flags: i32) -> (r: &mut OpenOptions)
        ensures
            *r == (OpenOptions { custom_flags: Some(flags), ..*old(self) }),
            *final(self) == *final(r),
    {
        self.custom_flags = Some(flags);
        self
    }

    pub fn access_mode(&mut self, access: u32) -> (r: &mut OpenOptions)
        ensures
            *r == (OpenOptions { access_mode: Some(access), ..*old(self) }),
            *final(self) == *final(r),
    {
        self.access_mode = Some(access);
        self
    }

    pub fn share_mode(&mut self, share: u32) -> (r: &mut OpenOptions)
        ensures
            *r == (OpenOptions { share_mode: Some(share), ..*old(self) }),
            *final(self) == *final(r),
    {
        self.share_mode = Some(share);
        self
    }

    pub fn attributes(&mut self, attributes: u32) -> (r: &mut OpenOptions)
        ensures
            *r == (OpenOptions { attributes: Some(attributes), ..*old(self) }),
            *final(self) == *final(r),
    {
        self.attributes = Some(attributes);
        self
    }

    pub fn security_qos_flags(&mut self, flags: u32) -> (r: &mut OpenOptions)
        ensures
            *r == (OpenOptions { security_qos_flags: Some(flags), ..*old(self) }),
            *final(self) == *final(r),
    {
        self.security_qos_flags = Some(flags);
        self
    }
}

impl Default for OpenOptions {
    fn default() -> (r: OpenOptions)
        ensures
            r == OpenOptions::blank(),
    {
        OpenOptions::new()
    }
}

} // verus!
