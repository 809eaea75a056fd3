use vstd::prelude::*;

verus! {

/// Bytes in a notification.
pub const NOTIF_LEN: usize = 32;

/// The notification text, always 32 bytes.
pub struct Notifications {
    text: [u8; NOTIF_LEN],
}

impl View for Notifications {
    type V = Seq<u8>;

    closed spec fn view(&self) -> Seq<u8> {
        self.text@
    }
}

impl Notifications {
    /// An empty notification: 32 zero bytes.
    pub fn new() -> (n: Notifications)
        ensures
            n@ == Seq::new(32, |i: int| 0u8),
    {
        let n = Notifications { text: [0u8; NOTIF_LEN] };
        assert(n@ =~= Seq::new(32, |i: int| 0u8));
        n
    }

    /// The notification text.
    pub fn text(&self) -> (r: &[u8; NOTIF_LEN])
        ensures
            r@ == self@,
    {
        &self.text
    }

    /// Replaces the notification with `msg`, which must be exactly 32 bytes.
    pub fn push_notif(&mut self, msg: &[u8])
        requires
            msg@.len() == 32,
        ensures
            final(self)@ == msg@,
    {
        let mut i: usize = 0;
        while i < NOTIF_LEN
            invariant
                i <= 32,
                msg@.len() == 32,
                self.text@.len() == 32,
                forall|j: int| 0 <= j < i ==> self.text@[j] == msg@[j],
            decreases 32 - i,
        {
            self.text[i] = msg[i];
            i = i + 1;
        }
        assert(self.text@ =~= msg@);
    }
}

} // verus!
