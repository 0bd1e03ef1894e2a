//! What the binding reads from a configuration descriptor: the interfaces with their
//! alternate settings, and the class-specific bytes that follow each descriptor.

use vstd::prelude::*;
use crate::error::Error;
use crate::functional_descriptor::{
    decode_record,
    first_decoded,
    lemma_first_decoded_concat,
    FunctionalDescriptor,
};

verus! {

/// One alternate setting of an interface.
#[derive(Debug, Clone, PartialEq, Eq)]
pub struct InterfaceSetting {
    /// Number of the alternate setting.
    pub setting_number: u8,
    /// Bytes that follow the interface descriptor and belong to no endpoint.
    pub extra: Vec<u8>,
}

/// An interface with its alternate settings, in descriptor order.
#[derive(Debug, Clone, PartialEq, Eq)]
pub struct Interface {
    /// Number of the interface.
    pub number: u8,
    /// The alternate settings.
    pub settings: Vec<InterfaceSetting>,
}

/// A configuration with its interfaces, in descriptor order.
#[derive(Debug, Clone, PartialEq, Eq)]
pub struct Configuration {
    /// Bytes that follow the configuration descriptor and belong to no interface.
    pub extra: Vec<u8>,
    /// The interfaces.
    pub interfaces: Vec<Interface>,
}

impl Interface {
    /// The numbers of the alternate settings, in order.
    pub open spec fn setting_numbers(&self) -> Seq<u8> {
        self.settings@.map_values(|setting: InterfaceSetting| setting.setting_number)
    }

    /// The extra bytes of the alternate settings, in order.
    pub open spec fn extras(&self) -> Seq<Seq<u8>> {
        self.settings@.map_values(|setting: InterfaceSetting| setting.extra@)
    }
}

/// The extra bytes of all alternate settings of `interfaces`, interface by interface.
pub open spec fn setting_extras(interfaces: Seq<Interface>) -> Seq<Seq<u8>>
    decreases interfaces.len(),
{
    if interfaces.len() == 0 {
        Seq::empty()
    } else {
        setting_extras(interfaces.drop_last()) + interfaces.last().extras()
    }
}

/// The settings of `front + back` are those of `front`, then those of `back`.
pub proof fn lemma_setting_extras_concat(front: Seq<Interface>, back: Seq<Interface>)
    ensures
        setting_extras(front + back) == setting_extras(front) + setting_extras(back),
    decreases back.len(),
{
    if back.len() > 0 {
        lemma_setting_extras_concat(front, back.drop_last());
        assert((front + back).drop_last() =~= front + back.drop_last());
    }
}

impl Configuration {
    /// The numbers of the interfaces, in order.
    pub open spec fn interface_numbers(&self) -> Seq<u8> {
        self.interfaces@.map_values(|interface: Interface| interface.number)
    }

    /// Where the alternate setting `alt` of interface `iface` stands: the position of the
    /// first interface with that number, and in it the position of the first setting with that
    /// number.
    pub open spec fn located(&self, iface: u8, alt: u8) -> Result<(int, int), Error> {
        match self.interface_numbers().index_of_first(iface) {
            None => Err(Error::InvalidInterface),
            Some(i) => match self.interfaces@[i].setting_numbers().index_of_first(alt) {
                None => Err(Error::InvalidAlt),
                Some(j) => Ok((i, j)),
            },
        }
    }

    /// The byte ranges that may hold a functional descriptor, in the order in which they are
    /// searched: the configuration's own, then those of every alternate setting.
    pub open spec fn candidates(&self) -> Seq<Seq<u8>> {
        seq![self.extra@] + setting_extras(self.interfaces@)
    }

    /// Finds the alternate setting `alt` of interface `iface`.
    pub fn locate(&self, iface: u8, alt: u8) -> (res: Result<(usize, usize), Error>)
        ensures
            match res {
                Ok((i, j)) => self.located(iface, alt) == Ok::<(int, int), Error>(
                    (i as int, j as int),
                ) && i < self.interfaces@.len() && j < self.interfaces@[i as int].settings@.len(),
                Err(e) => self.located(iface, alt) == Err::<(int, int), Error>(e),
            },
    {
        let ghost numbers = self.interface_numbers();
        proof {
            numbers.index_of_first_ensures(iface);
        }
        let mut i: usize = 0;
        while i < self.interfaces.len() && self.interfaces[i].number != iface
            invariant
                i <= self.interfaces@.len(),
                numbers == self.interface_numbers(),
                forall|k: int| 0 <= k < i ==> numbers[k] != iface,
            decreases self.interfaces@.len() - i,
        {
            i = i + 1;
        }
        if i == self.interfaces.len() {
            return Err(Error::InvalidInterface);
        }
        assert(numbers[i as int] == iface);
        let interface = &self.interfaces[i];
        let ghost alts = interface.setting_numbers();
        proof {
            alts.index_of_first_ensures(alt);
        }
        let mut j: usize = 0;
        while j < interface.settings.len() && interface.settings[j].setting_number != alt
            invariant
                j <= interface.settings@.len(),
                alts == interface.setting_numbers(),
                forall|k: int| 0 <= k < j ==> alts[k] != alt,
            decreases interface.settings@.len() - j,
        {
            j = j + 1;
        }
        if j == interface.settings.len() {
            return Err(Error::InvalidAlt);
        }
        assert(alts[j as int] == alt);
        Ok((i, j))
    }

    /// Searches the descriptor bytes of the configuration for a functional descriptor. The
    /// first range that holds a well-formed record ends the search; malformed ranges are
    /// passed over.
    pub fn find_functional_descriptor(&self) -> (res: Option<FunctionalDescriptor>)
        ensures
            res == first_decoded(self.candidates()),
    {
        let ghost front = seq![self.extra@];
        let own = decode_record(self.extra.as_slice());
        proof {
            assert(first_decoded(front.drop_last()) is None);
            lemma_first_decoded_concat(front, setting_extras(self.interfaces@));
        }
        if own.is_some() {
            return own;
        }
        let mut i: usize = 0;
        while i < self.interfaces.len()
            invariant
                i <= self.interfaces@.len(),
                first_decoded(self.candidates()) == first_decoded(
                    setting_extras(self.interfaces@),
                ),
                first_decoded(setting_extras(self.interfaces@.take(i as int))) is None,
            decreases self.interfaces@.len() - i,
        {
            let found = first_of_interface(&self.interfaces[i]);
            proof {
                let seen = self.interfaces@.take(i + 1);
                assert(seen.drop_last() =~= self.interfaces@.take(i as int));
                lemma_first_decoded_concat(
                    setting_extras(seen.drop_last()),
                    self.interfaces@[i as int].extras(),
                );
                assert(self.interfaces@ =~= seen + self.interfaces@.skip(i + 1));
                lemma_setting_extras_concat(seen, self.interfaces@.skip(i + 1));
                lemma_first_decoded_concat(
                    setting_extras(seen),
                    setting_extras(self.interfaces@.skip(i + 1)),
                );
            }
            if found.is_some() {
                return found;
            }
            i = i + 1;
        }
        proof {
            assert(self.interfaces@.take(i as int) =~= self.interfaces@);
        }
        None
    }
}

/// Searches the alternate settings of one interface.
fn first_of_interface(interface: &Interface) -> (res: Option<FunctionalDescriptor>)
    ensures
        res == first_decoded(interface.extras()),
{
    let ghost all = interface.extras();
    let mut j: usize = 0;
    while j < interface.settings.len()
        invariant
            j <= interface.settings@.len(),
            all == interface.extras(),
            first_decoded(all.take(j as int)) is None,
        decreases interface.settings@.len() - j,
    {
        let found = decode_record(interface.settings[j].extra.as_slice());
        proof {
            assert(all.take(j + 1).drop_last() =~= all.take(j as int));
            lemma_first_decoded_concat(all.take(j + 1), all.skip(j + 1));
            assert(all.take(j + 1) + all.skip(j + 1) =~= all);
        }
        if found.is_some() {
            return found;
        }
        j = j + 1;
    }
    proof {
        assert(all.take(j as int) =~= all);
    }
    None
}

} // verus!
