//! Keyboards: what is known of a connected one, and finding one again.
use crate::config::DeviceRef;
use crate::text::{chars_of, copy_text, hex4, hex4_text, same_text};
use vstd::prelude::*;

verus! {

/// A connected keyboard that speaks the VIA protocol.
pub struct KeyboardDeviceInfo {
    pub vendor_id: u16,
    pub product_id: u16,
    pub usage_page: u16,
    pub manufacturer: Option<String>,
    pub product: Option<String>,
    pub serial_number: Option<String>,
}

impl Clone for KeyboardDeviceInfo {
    fn clone(&self) -> (copy: Self)
        ensures
            copy == *self,
    {
        KeyboardDeviceInfo {
            vendor_id: self.vendor_id,
            product_id: self.product_id,
            usage_page: self.usage_page,
            manufacturer: copy_text(&self.manufacturer),
            product: copy_text(&self.product),
            serial_number: copy_text(&self.serial_number),
        }
    }
}

/// An interface on the list of the HID system: enough to tell which to open.
pub struct HidInterface {
    pub vendor_id: u16,
    pub product_id: u16,
    pub usage_page: u16,
}

/// The product name of a keyboard, empty where it has none.
pub open spec fn product_name(device: KeyboardDeviceInfo) -> Seq<char> {
    match device.product {
        Some(name) => name@,
        None => seq![],
    }
}

/// How a keyboard is listed: its product name and its ids in hexadecimal.
pub open spec fn labelled(device: KeyboardDeviceInfo) -> Seq<char> {
    product_name(device) + " ("@ + hex4(device.vendor_id) + ":"@ + hex4(device.product_id) + ")"@
}

impl KeyboardDeviceInfo {
    /// How this keyboard is listed.
    pub fn label(&self) -> (text: String)
        ensures
            text@ == labelled(*self),
    {
        let mut text = match &self.product {
            Some(name) => name.clone(),
            None => String::new(),
        };
        text.append(" (");
        text.append(hex4_text(self.vendor_id).as_str());
        text.append(":");
        text.append(hex4_text(self.product_id).as_str());
        text.append(")");
        assert(text@ =~= labelled(*self));
        text
    }

    /// The identity under which this keyboard is remembered.
    pub fn reference(&self) -> (device: DeviceRef)
        ensures
            device == referenced(*self),
    {
        DeviceRef {
            vendor_id: self.vendor_id,
            product_id: self.product_id,
            serial_number: copy_text(&self.serial_number),
        }
    }
}

/// The identity under which a keyboard is remembered.
pub open spec fn referenced(device: KeyboardDeviceInfo) -> DeviceRef {
    DeviceRef {
        vendor_id: device.vendor_id,
        product_id: device.product_id,
        serial_number: device.serial_number,
    }
}

/// Whether a keyboard is the remembered one. One that was remembered without a
/// serial number is any of its make.
pub open spec fn is_remembered(device: KeyboardDeviceInfo, saved: DeviceRef) -> bool {
    &&& device.vendor_id == saved.vendor_id
    &&& device.product_id == saved.product_id
    &&& saved.serial_number is None || chars_of(device.serial_number) == chars_of(
        saved.serial_number,
    )
}

/// Whether two descriptions are of the same keyboard.
pub open spec fn is_same_keyboard(a: KeyboardDeviceInfo, b: KeyboardDeviceInfo) -> bool {
    &&& a.vendor_id == b.vendor_id
    &&& a.product_id == b.product_id
    &&& chars_of(a.serial_number) == chars_of(b.serial_number)
}

/// Whether an interface of the HID system belongs to a keyboard.
pub open spec fn is_interface_of(interface: HidInterface, device: KeyboardDeviceInfo) -> bool {
    &&& interface.usage_page == device.usage_page
    &&& interface.vendor_id == device.vendor_id
    &&& interface.product_id == device.product_id
}

/// `at` is the first position at which `fits` holds, or `None` if there is none.
pub open spec fn is_first<T>(list: Seq<T>, fits: spec_fn(T) -> bool, at: Option<usize>) -> bool {
    match at {
        Some(i) => i < list.len() && fits(list[i as int]) && forall|j: int|
            0 <= j < i ==> !fits(#[trigger] list[j]),
        None => forall|j: int| 0 <= j < list.len() ==> !fits(#[trigger] list[j]),
    }
}

/// Finds the keyboard that was remembered in an earlier run.
pub fn find_remembered(devices: &Vec<KeyboardDeviceInfo>, saved: &DeviceRef) -> (at: Option<usize>)
    ensures
        is_first(devices@, |d: KeyboardDeviceInfo| is_remembered(d, *saved), at),
{
    let mut i: usize = 0;
    while i < devices.len()
        invariant
            i <= devices@.len(),
            forall|j: int| 0 <= j < i ==> !is_remembered(#[trigger] devices@[j], *saved),
        decreases devices@.len() - i,
    {
        let device = &devices[i];
        if device.vendor_id == saved.vendor_id && device.product_id == saved.product_id && (
        saved.serial_number.is_none() || same_text(&device.serial_number, &saved.serial_number)) {
            return Some(i);
        }
        i = i + 1;
    }
    None
}

/// Finds the keyboard in use on a fresh list.
pub fn find_current(devices: &Vec<KeyboardDeviceInfo>, current: &KeyboardDeviceInfo) -> (at: Option<
    usize,
>)
    ensures
        is_first(devices@, |d: KeyboardDeviceInfo| is_same_keyboard(d, *current), at),
{
    let mut i: usize = 0;
    while i < devices.len()
        invariant
            i <= devices@.len(),
            forall|j: int| 0 <= j < i ==> !is_same_keyboard(#[trigger] devices@[j], *current),
        decreases devices@.len() - i,
    {
        let device = &devices[i];
        if device.vendor_id == current.vendor_id && device.product_id == current.product_id
            && same_text(&device.serial_number, &current.serial_number) {
            return Some(i);
        }
        i = i + 1;
    }
    None
}

/// Finds the interface to open for a keyboard.
pub fn find_interface(interfaces: &Vec<HidInterface>, device: &KeyboardDeviceInfo) -> (at: Option<
    usize,
>)
    ensures
        is_first(interfaces@, |h: HidInterface| is_interface_of(h, *device), at),
{
    let mut i: usize = 0;
    while i < interfaces.len()
        invariant
            i <= interfaces@.len(),
            forall|j: int| 0 <= j < i ==> !is_interface_of(#[trigger] interfaces@[j], *device),
        decreases interfaces@.len() - i,
    {
        let interface = &interfaces[i];
        if interface.usage_page == device.usage_page && interface.vendor_id == device.vendor_id
            && interface.product_id == device.product_id {
            return Some(i);
        }
        i = i + 1;
    }
    None
}

/// The position of the keyboard of a given product name, for the diagnostics.
pub fn find_product(devices: &Vec<KeyboardDeviceInfo>, name: &str) -> (at: Option<usize>)
    ensures
        is_first(
            devices@,
            |d: KeyboardDeviceInfo| chars_of(d.product) == Some(name@),
            at,
        ),
{
    let wanted = Some(name.to_owned());
    let mut i: usize = 0;
    while i < devices.len()
        invariant
            i <= devices@.len(),
            chars_of(wanted) == Some(name@),
            forall|j: int| 0 <= j < i ==> chars_of((#[trigger] devices@[j]).product) != Some(name@),
        decreases devices@.len() - i,
    {
        if same_text(&devices[i].product, &wanted) {
            return Some(i);
        }
        i = i + 1;
    }
    None
}

/// A remembered keyboard that is still connected is found again: the search
/// succeeds, no later than at its own place, and what it finds has the same ids
/// and, if the keyboard has a serial number, the same serial number.
pub proof fn law_remembered_keyboard_is_found(
    devices: Seq<KeyboardDeviceInfo>,
    i: int,
    at: Option<usize>,
)
    requires
        0 <= i < devices.len(),
        is_first(
            devices,
            |d: KeyboardDeviceInfo| is_remembered(d, referenced(devices[i])),
            at,
        ),
    ensures
        at matches Some(k) && k <= i && devices[k as int].vendor_id == devices[i].vendor_id
            && devices[k as int].product_id == devices[i].product_id && (
        devices[i].serial_number is Some ==> chars_of(devices[k as int].serial_number) == chars_of(
            devices[i].serial_number,
        )),
{
    assert(is_remembered(devices[i], referenced(devices[i])));
    let fits = |d: KeyboardDeviceInfo| is_remembered(d, referenced(devices[i]));
    assert(fits(devices[i]));
}

/// The keyboard in use is found again on any list that holds it.
pub proof fn law_current_keyboard_is_found(
    devices: Seq<KeyboardDeviceInfo>,
    current: KeyboardDeviceInfo,
    i: int,
    at: Option<usize>,
)
    requires
        0 <= i < devices.len(),
        is_same_keyboard(devices[i], current),
        is_first(devices, |d: KeyboardDeviceInfo| is_same_keyboard(d, current), at),
    ensures
        at matches Some(k) && k <= i && is_same_keyboard(devices[k as int], current),
{
    let fits = |d: KeyboardDeviceInfo| is_same_keyboard(d, current);
    assert(fits(devices[i]));
}

/// A keyboard is listed by its product name, if it has one, and its two ids in
/// brackets, as four hexadecimal digits each with a colon between.
pub proof fn law_label_shows_name_and_ids(device: KeyboardDeviceInfo, text: String)
    requires
        call_ensures(KeyboardDeviceInfo::label, (&device,), text),
    ensures
        ({
            let n: int = match device.product {
                Some(name) => name@.len() as int,
                None => 0,
            };
            &&& text@.len() == n + 12
            &&& device.product matches Some(name) ==> text@.take(n) == name@
            &&& text@[n] == ' ' && text@[n + 1] == '(' && text@[n + 6] == ':' && text@[n + 11]
                == ')'
            &&& text@.subrange(n + 2, n + 6) == hex4(device.vendor_id)
            &&& text@.subrange(n + 7, n + 11) == hex4(device.product_id)
        }),
{
    reveal_strlit(" (");
    reveal_strlit(":");
    reveal_strlit(")");
    let n = product_name(device).len() as int;
    assert(text@.take(n) =~= product_name(device));
    assert(text@.subrange(n + 2, n + 6) =~= hex4(device.vendor_id));
    assert(text@.subrange(n + 7, n + 11) =~= hex4(device.product_id));
}

/// A keyboard is remembered by its two ids and its serial number.
pub proof fn law_reference_holds_the_identity(device: KeyboardDeviceInfo, saved: DeviceRef)
    requires
        call_ensures(KeyboardDeviceInfo::reference, (&device,), saved),
    ensures
        saved.vendor_id == device.vendor_id,
        saved.product_id == device.product_id,
        saved.serial_number == device.serial_number,
{
}

/// The remembered keyboard is the first with the same ids and, where one was
/// remembered, the same serial number.
pub proof fn law_first_fitting_keyboard_is_the_remembered_one(
    devices: Vec<KeyboardDeviceInfo>,
    saved: DeviceRef,
    at: Option<usize>,
    j: int,
)
    requires
        call_ensures(find_remembered, (&devices, &saved), at),
    ensures
        at matches Some(k) ==> {
            &&& k < devices@.len()
            &&& devices@[k as int].vendor_id == saved.vendor_id
            &&& devices@[k as int].product_id == saved.product_id
            &&& saved.serial_number matches Some(s) ==> devices@[k as int].serial_number matches Some(
                own,
            ) && own@ == s@
        },
        0 <= j < devices@.len() && devices@[j].vendor_id == saved.vendor_id
            && devices@[j].product_id == saved.product_id && (
        saved.serial_number matches Some(s) ==> devices@[j].serial_number matches Some(own) && own@
            == s@) ==> (at matches Some(k) && k <= j),
{
    let fits = |d: KeyboardDeviceInfo| is_remembered(d, saved);
    if let Some(k) = at {
        assert(fits(devices@[k as int]));
        if 0 <= j < k {
            assert(!fits(devices@[j]));
        }
    } else if 0 <= j < devices@.len() {
        assert(!fits(devices@[j]));
    }
}

/// The keyboard in use is the first with the same ids and the same serial number,
/// where having none is a serial number of its own.
pub proof fn law_first_same_keyboard_is_the_current_one(
    devices: Vec<KeyboardDeviceInfo>,
    current: KeyboardDeviceInfo,
    at: Option<usize>,
    j: int,
)
    requires
        call_ensures(find_current, (&devices, &current), at),
    ensures
        at matches Some(k) ==> {
            &&& k < devices@.len()
            &&& devices@[k as int].vendor_id == current.vendor_id
            &&& devices@[k as int].product_id == current.product_id
            &&& match (devices@[k as int].serial_number, current.serial_number) {
                (Some(own), Some(s)) => own@ == s@,
                (None, None) => true,
                _ => false,
            }
        },
        0 <= j < devices@.len() && devices@[j].vendor_id == current.vendor_id
            && devices@[j].product_id == current.product_id && match (devices@[j].serial_number, current.serial_number) {
            (Some(own), Some(s)) => own@ == s@,
            (None, None) => true,
            _ => false,
        } ==> (at matches Some(k) && k <= j),
{
    let fits = |d: KeyboardDeviceInfo| is_same_keyboard(d, current);
    if let Some(k) = at {
        assert(fits(devices@[k as int]));
        if 0 <= j < k {
            assert(!fits(devices@[j]));
        }
    } else if 0 <= j < devices@.len() {
        assert(!fits(devices@[j]));
    }
}

/// The interface opened for a keyboard is the first with its ids and its usage page.
pub proof fn law_first_fitting_interface_is_opened(
    interfaces: Vec<HidInterface>,
    device: KeyboardDeviceInfo,
    at: Option<usize>,
    j: int,
)
    requires
        call_ensures(find_interface, (&interfaces, &device), at),
    ensures
        at matches Some(k) ==> {
            &&& k < interfaces@.len()
            &&& interfaces@[k as int].vendor_id == device.vendor_id
            &&& interfaces@[k as int].product_id == device.product_id
            &&& interfaces@[k as int].usage_page == device.usage_page
        },
        0 <= j < interfaces@.len() && interfaces@[j].vendor_id == device.vendor_id
            && interfaces@[j].product_id == device.product_id && interfaces@[j].usage_page == device.usage_page ==> (
        at matches Some(k) && k <= j),
{
    let fits = |h: HidInterface| is_interface_of(h, device);
    if let Some(k) = at {
        assert(fits(interfaces@[k as int]));
        if 0 <= j < k {
            assert(!fits(interfaces@[j]));
        }
    } else if 0 <= j < interfaces@.len() {
        assert(!fits(interfaces@[j]));
    }
}

/// The keyboard of a product name is the first whose name reads so.
pub proof fn law_first_product_of_the_name_is_found(
    devices: Vec<KeyboardDeviceInfo>,
    name: &str,
    at: Option<usize>,
    j: int,
)
    requires
        call_ensures(find_product, (&devices, name), at),
    ensures
        at matches Some(k) ==> k < devices@.len() && (devices@[k as int].product matches Some(p)
            && p@ == name@),
        0 <= j < devices@.len() && (devices@[j].product matches Some(p) && p@ == name@) ==> (at matches Some(k) && k <= j),
{
    let fits = |d: KeyboardDeviceInfo| chars_of(d.product) == Some(name@);
    if let Some(k) = at {
        assert(fits(devices@[k as int]));
        if 0 <= j < k {
            assert(!fits(devices@[j]));
        }
    } else if 0 <= j < devices@.len() {
        assert(!fits(devices@[j]));
    }
}

} // verus!
