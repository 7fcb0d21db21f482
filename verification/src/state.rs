//! The allow-list of charger serial numbers: a store that is filled once,
//! on first use, and read ever after, and the admission rule over it.

use vstd::prelude::*;

use crate::config::allowed_serial_numbers;
use crate::config::serial_numbers;
use crate::config::texts;
use crate::records::optional_text;

verus! {

/// The serial numbers that may register, once they have been loaded.
///
/// The store starts empty-handed and is filled at most once: whatever is
/// loaded first stays for the life of the store.
#[derive(Debug)]
pub struct AllowListStore {
    serials: Option<Vec<String>>,
}

impl View for AllowListStore {
    type V = Option<Seq<Seq<char>>>;

    /// The list that was loaded, `None` before the first load.
    closed spec fn view(&self) -> Option<Seq<Seq<char>>> {
        match self.serials {
            Some(list) => Some(texts(list@)),
            None => None,
        }
    }
}

/// The list that a store holds after a load: the list it held before, or,
/// where it held none, the list that the configured value names. A value
/// that could not be read counts as an empty list.
pub open spec fn loaded(before: Option<Seq<Seq<char>>>, raw: Option<Seq<char>>) -> Seq<Seq<char>> {
    match before {
        Some(list) => list,
        None => match raw {
            Some(text) => serial_numbers(text),
            None => Seq::empty(),
        },
    }
}

/// The text of a configured value, where there is one.
pub open spec fn raw_text(raw: Option<&str>) -> Option<Seq<char>> {
    match raw {
        Some(s) => Some(s@),
        None => None,
    }
}

/// Whether a charger with the given serial number may register: every
/// charger where the list is empty, else exactly those whose serial number
/// is present and is an entry of the list, whole string for whole string.
pub open spec fn admitted(allowed: Seq<Seq<char>>, serial: Option<Seq<char>>) -> bool {
    allowed.len() == 0 || (serial is Some && allowed.contains(serial->Some_0))
}

/// A store is filled exactly once: what a second load gives is what the
/// first load gave, whatever is configured by then.
pub proof fn lemma_loaded_once(
    before: Option<Seq<Seq<char>>>,
    first: Option<Seq<char>>,
    second: Option<Seq<char>>,
)
    ensures
        loaded(Some(loaded(before, first)), second) == loaded(before, first),
{
}

/// An empty list admits every charger, with or without a serial number.
pub proof fn lemma_empty_list_admits(serial: Option<Seq<char>>)
    ensures
        admitted(Seq::empty(), serial),
{
}

/// A list that is not empty admits no charger without a serial number.
pub proof fn lemma_listed_needs_serial(allowed: Seq<Seq<char>>)
    requires
        allowed.len() > 0,
    ensures
        !admitted(allowed, None),
{
}

/// Admission goes by the entries of the list as a set: two lists with the
/// same entries, in whatever order and however often, admit the same
/// chargers.
pub proof fn lemma_admission_by_set(
    first: Seq<Seq<char>>,
    second: Seq<Seq<char>>,
    serial: Option<Seq<char>>,
)
    requires
        first.to_set() == second.to_set(),
    ensures
        admitted(first, serial) == admitted(second, serial),
{
    if first.len() > 0 {
        assert(first.contains(first[0]));
        assert(first.to_set().contains(first[0]));
        assert(second.contains(first[0]));
    }
    if second.len() > 0 {
        assert(second.contains(second[0]));
        assert(second.to_set().contains(second[0]));
        assert(first.contains(second[0]));
    }
    if serial is Some {
        let entry = serial->Some_0;
        assert(first.contains(entry) <==> first.to_set().contains(entry));
        assert(second.contains(entry) <==> second.to_set().contains(entry));
    }
}

impl AllowListStore {
    /// A store into which nothing has been loaded.
    pub fn new() -> (r: AllowListStore)
        ensures
            r@ is None,
    {
        AllowListStore { serials: None }
    }

    /// Load the list on first use.
    ///
    /// `raw` is the value of `ALLOWED_SERIAL_NUMBERS`, `None` where the
    /// configuration could not be read. It is looked at only while the
    /// store holds no list; a store that holds one keeps it.
    pub fn get_or_init(&mut self, raw: Option<&str>)
        ensures
            final(self)@ == Some(loaded(old(self)@, raw_text(raw))),
    {
        if self.serials.is_none() {
            let list: Vec<String> = match raw {
                Some(text) => allowed_serial_numbers(text),
                None => Vec::new(),
            };
            proof {
                if raw is None {
                    assert(texts(list@) =~= Seq::<Seq<char>>::empty());
                }
            }
            self.serials = Some(list);
        }
    }
}

/// The list of allowed serial numbers, `None` before the first load.
pub fn get_allowed_serial_numbers(store: &AllowListStore) -> (r: Option<&Vec<String>>)
    ensures
        r is Some <==> store@ is Some,
        r matches Some(list) ==> store@ == Some(texts(list@)),
{
    store.serials.as_ref()
}

/// Load the list of allowed serial numbers on first use and hand it out.
///
/// On the first call the list is parsed from `raw`, the value of
/// `ALLOWED_SERIAL_NUMBERS`; `None` stands for a configuration that could
/// not be read and gives the empty list, which admits every charger. Every
/// later call hands out the list of the first.
pub fn load_allowed_serial_numbers<'a>(store: &'a mut AllowListStore, raw: Option<&str>) -> (r:
    &'a Vec<String>)
    ensures
        texts(r@) == loaded(old(store)@, raw_text(raw)),
        final(store)@ == Some(texts(r@)),
{
    store.get_or_init(raw);
    match &store.serials {
        Some(list) => list,
        None => {
            proof {
                assert(false);
            }
            unreached()
        },
    }
}

/// Whether a charger with the given serial number may register.
pub fn serial_is_allowed(allowed: &Vec<String>, serial: &Option<String>) -> (r: bool)
    ensures
        r == admitted(texts(allowed@), optional_text(*serial)),
{
    if allowed.len() == 0 {
        return true;
    }
    match serial {
        None => false,
        Some(s) => {
            let ghost list = texts(allowed@);
            let mut i: usize = 0;
            while i < allowed.len()
                invariant
                    i <= allowed.len(),
                    list == texts(allowed@),
                    allowed.len() > 0,
                    *serial == Some(*s),
                    forall|k: int| 0 <= k < i ==> list[k] != s@,
                decreases allowed.len() - i,
            {
                if allowed[i] == *s {
                    assert(list[i as int] == s@);
                    assert(list.contains(s@));
                    return true;
                }
                i = i + 1;
            }
            false
        },
    }
}

} // verus!
