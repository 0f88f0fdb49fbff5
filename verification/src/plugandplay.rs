//! Plug and play: drivers are registered with a manager, and the drivers
//! whose device identifier is the one detected are loaded.
use vstd::prelude::*;
use crate::text::str_eq;

verus! {

/// Identifier of the device the manager detects.
pub const DETECTED_DEVICE_ID: &'static str = "XYZ123";

/// A driver, as the manager knows it: the device it supports, and how it
/// loads. `load` gives the messages the driver reports while loading.
pub trait Driver {
    spec fn supported_id(&self) -> Seq<char>;

    fn device_id(&self) -> (r: String)
        ensures
            r@ == self.supported_id();

    fn load(&self) -> Vec<String>;
}

#[derive(Debug)]
pub struct ExampleDriver {
    pub supported_device_id: String,
    pub name: String,
}

impl ExampleDriver {
    pub fn new(supported_device_id: String, name: String) -> (r: Self)
        ensures
            r.supported_device_id@ == supported_device_id@,
            r.name@ == name@,
    {
        ExampleDriver { supported_device_id, name }
    }
}

impl Driver for ExampleDriver {
    open spec fn supported_id(&self) -> Seq<char> {
        self.supported_device_id@
    }

    fn device_id(&self) -> (r: String) {
        self.supported_device_id.clone()
    }

    /// Reports that the driver is loading (with its name and device) and
    /// that it has loaded.
    fn load(&self) -> (r: Vec<String>)
        ensures
            r@.len() == 2,
            r@[0]@ == "Sürücü yükleniyor: "@ + self.name@ + " (Cihaz ID: "@ + self.supported_device_id@ + ")"@,
            r@[1]@ == self.name@ + " sürücüsü başarıyla yüklendi."@,
    {
        let mut first = String::from_str("Sürücü yükleniyor: ");
        first.append(self.name.as_str());
        first.append(" (Cihaz ID: ");
        let id = self.device_id();
        first.append(id.as_str());
        first.append(")");
        let mut second = self.name.clone();
        second.append(" sürücüsü başarıyla yüklendi.");
        let mut r: Vec<String> = Vec::new();
        r.push(first);
        r.push(second);
        r
    }
}

/// The registered drivers, in the order they were registered.
pub struct PlugAndPlayManager<D: Driver> {
    pub drivers: Vec<D>,
}

/// The positions of the drivers, in order, whose device is `id`.
pub open spec fn matching(drivers: Seq<Seq<char>>, id: Seq<char>) -> Seq<int>
    decreases drivers.len(),
{
    if drivers.len() == 0 {
        Seq::empty()
    } else {
        let rest = matching(drivers.drop_last(), id);
        if drivers.last() == id { rest.push(drivers.len() - 1) } else { rest }
    }
}

impl<D: Driver> PlugAndPlayManager<D> {
    pub open spec fn ids(&self) -> Seq<Seq<char>> {
        self.drivers@.map_values(|d: D| d.supported_id())
    }

    pub fn new() -> (r: Self)
        ensures
            r.drivers@.len() == 0,
    {
        PlugAndPlayManager { drivers: Vec::new() }
    }

    pub fn register_driver(&mut self, driver: D)
        ensures
            final(self).drivers@ == old(self).drivers@.push(driver),
    {
        self.drivers.push(driver);
    }

    /// Whether a driver supports the device `detected_device_id`.
    pub fn device_matches_driver(&self, driver: &D, detected_device_id: &str) -> (r: bool)
        ensures
            r == (driver.supported_id() == detected_device_id@),
    {
        let id = driver.device_id();
        str_eq(id.as_str(), detected_device_id)
    }

    /// The drivers to load for the detected device: the positions of those
    /// that support it, in registration order.
    pub fn detect_and_load_drivers(&self) -> (r: Vec<usize>)
        ensures
            r@.map_values(|i: usize| i as int) == matching(self.ids(), DETECTED_DEVICE_ID@),
    {
        let mut r: Vec<usize> = Vec::new();
        let mut i: usize = 0;
        while i < self.drivers.len()
            invariant
                i <= self.drivers@.len(),
                r@.map_values(|k: usize| k as int) == matching(self.ids().subrange(0, i as int), DETECTED_DEVICE_ID@),
            decreases self.drivers@.len() - i,
        {
            let ghost before = r@;
            if self.device_matches_driver(&self.drivers[i], DETECTED_DEVICE_ID) {
                r.push(i);
            }
            proof {
                let s = self.ids().subrange(0, i + 1);
                assert(s.drop_last() =~= self.ids().subrange(0, i as int));
                assert(s.last() == self.drivers@[i as int].supported_id());
                assert(r@.map_values(|k: usize| k as int) =~= matching(s, DETECTED_DEVICE_ID@));
            }
            i = i + 1;
        }
        assert(self.ids().subrange(0, self.drivers@.len() as int) =~= self.ids());
        r
    }
}

} // verus!
