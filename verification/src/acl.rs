//! Who may use a mounted filesystem.
use vstd::prelude::*;

verus! {

/// How requests should be filtered based on the calling UID.
#[derive(Clone, Copy, Debug, PartialEq, Eq, Structural)]
pub enum SessionACL {
    /// Allow requests from any user. Corresponds to the `allow_other` mount option.
    All,
    /// Allow requests from root. Corresponds to the `allow_root` mount option.
    RootAndOwner,
    /// Allow requests from the owning UID. This is FUSE's default mode of operation.
    Owner,
}

impl Default for SessionACL {
    fn default() -> (acl: SessionACL)
        ensures
            acl == SessionACL::Owner,
    {
        SessionACL::Owner
    }
}

/// The UID of the superuser.
pub const ROOT_UID: u32 = 0;

impl SessionACL {
    /// Whether the rule lets user `uid` use a filesystem that `owner` mounted.
    pub open spec fn admits(self, uid: u32, owner: u32) -> bool {
        match self {
            SessionACL::All => true,
            SessionACL::RootAndOwner => uid == owner || uid == ROOT_UID,
            SessionACL::Owner => uid == owner,
        }
    }

    /// The mount option that the rule needs from the kernel.
    pub open spec fn mount_option(self) -> Option<Seq<char>> {
        if self == SessionACL::Owner {
            None
        } else {
            Some("allow_other"@)
        }
    }

    /// Whether a request of user `uid` passes, on a filesystem that `owner` mounted.
    pub fn permits(self, uid: u32, owner: u32) -> (permitted: bool)
        ensures
            permitted == self.admits(uid, owner),
    {
        match self {
            SessionACL::All => true,
            SessionACL::RootAndOwner => uid == owner || uid == ROOT_UID,
            SessionACL::Owner => uid == owner,
        }
    }

    /// Returns the mount option string for the kernel and for `fusermount`.
    ///
    /// Both `All` and `RootAndOwner` map to `allow_other`: the kernel only understands
    /// `allow_other`, and the root-only restriction is enforced on each request.
    pub fn to_mount_option(self) -> (option: Option<&'static str>)
        ensures
            option is Some <==> self.mount_option() is Some,
            option matches Some(text) ==> self.mount_option() == Some(text@),
    {
        match self {
            SessionACL::All | SessionACL::RootAndOwner => Some("allow_other"),
            SessionACL::Owner => None,
        }
    }
}

/// Each rule admits everyone whom the next stricter one admits, and the owner passes them all.
pub proof fn lemma_rules_are_nested(uid: u32, owner: u32)
    ensures
        SessionACL::Owner.admits(uid, owner) ==> SessionACL::RootAndOwner.admits(uid, owner),
        SessionACL::RootAndOwner.admits(uid, owner) ==> SessionACL::All.admits(uid, owner),
        forall|acl: SessionACL| #[trigger] acl.admits(owner, owner),
{
}

/// Where a user other than the owner can pass at all, the kernel is asked to let other users in.
pub proof fn lemma_strangers_need_allow_other(acl: SessionACL, uid: u32, owner: u32)
    requires
        acl.admits(uid, owner),
        uid != owner,
    ensures
        acl.mount_option() == Some("allow_other"@),
{
}

/// The owner passes every rule; root passes the rule for root and owner, and nobody else does; and
/// only the rule for all lets anybody else in. The kernel is asked to let other users in exactly if
/// the rule lets some other user in.
pub proof fn lemma_who_passes_which_rule(acl: SessionACL, uid: u32, owner: u32)
    ensures
        SessionACL::All.admits(uid, owner),
        SessionACL::RootAndOwner.admits(uid, owner) <==> uid == owner || uid == 0,
        SessionACL::Owner.admits(uid, owner) <==> uid == owner,
        acl.mount_option() is None <==> forall|other: u32, mounter: u32|
            #[trigger] acl.admits(other, mounter) ==> other == mounter,
        acl.mount_option() matches Some(text) ==> text == "allow_other"@,
{
    assert(SessionACL::All.admits(1, 2));
    assert(SessionACL::RootAndOwner.admits(0, 1));
}

} // verus!
