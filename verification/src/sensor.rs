//! Temperature sensors: DS18B20 1-wire addresses and device paths, the list
//! of sensors found on the bus, and sensor configuration records.
use crate::pub_sub::ClientId;
use crate::text::{push_char, push_text};
use vstd::prelude::*;
use vstd::utf8::encode_utf8;

verus! {

/// Errors met while setting up or reading a sensor.
#[derive(Clone, Debug, PartialEq, Eq)]
pub enum SensorError {
    InvalidAddressStart(String),
    InvalidAddressLength(usize),
    FileRead(String),
    Parse(String),
    InvalidParam(String),
}

/// A temperature sensor of the brewery.
#[derive(Clone, Debug)]
pub enum TempSensor {
    Ds18b20 { address: String },
}

/// Whether the UTF-8 bytes of an address begin with `28`, the DS18B20
/// family code.
pub open spec fn starts_with_family_code(bytes: Seq<u8>) -> bool {
    bytes.len() >= 2 && bytes[0] == 50u8 && bytes[1] == 56u8
}

/// A valid DS18B20 address: fifteen bytes, beginning with `28`.
pub open spec fn valid_address(text: Seq<char>) -> bool {
    starts_with_family_code(encode_utf8(text)) && encode_utf8(text).len() == 15
}

/// Temperature sensor address: 15 characters, beginning with "28".
#[derive(Debug, PartialEq, Eq)]
pub struct Ds18b20Address(String);

/// Directory where the operating system registers DS18B20 sensors.
pub const DS18B20_DIR: &'static str = "/sys/bus/w1/devices/";

impl Ds18b20Address {
    /// The text of the address.
    pub closed spec fn text(&self) -> Seq<char> {
        self.0@
    }

    /// An address is always valid.
    #[verifier::type_invariant]
    spec fn inv(self) -> bool {
        valid_address(self.0@)
    }


    /// Checks that `address` is a DS18B20 address: first that it begins with
    /// `28`, then that it is fifteen bytes long.
    pub fn verify(address: &str) -> (r: Result<(), SensorError>)
        ensures
            r is Ok <==> valid_address(address@),
            r matches Err(e) ==> if !starts_with_family_code(encode_utf8(address@)) {
                e matches SensorError::InvalidAddressStart(s) && s@ == address@
            } else {
                e == SensorError::InvalidAddressLength(encode_utf8(address@).len() as usize)
            },
    {
        let bytes = address.as_bytes();
        if !(bytes.len() >= 2 && bytes[0] == 50u8 && bytes[1] == 56u8) {
            return Err(SensorError::InvalidAddressStart(address.to_owned()));
        }
        if address.len() != 15 {
            return Err(SensorError::InvalidAddressLength(address.len()));
        }
        Ok(())
    }

    /// The address `address`, once verified.
    pub fn try_new(address: &str) -> (r: Result<Ds18b20Address, SensorError>)
        ensures
            r is Ok <==> valid_address(address@),
            r matches Ok(a) ==> a.text() == address@,
            r matches Err(e) ==> if !starts_with_family_code(encode_utf8(address@)) {
                e matches SensorError::InvalidAddressStart(s) && s@ == address@
            } else {
                e == SensorError::InvalidAddressLength(encode_utf8(address@).len() as usize)
            },
    {
        Ds18b20Address::verify(address)?;
        Ok(Ds18b20Address(address.to_owned()))
    }

    /// A placeholder address for configurations without hardware.
    pub fn dummy() -> (r: Ds18b20Address)
        ensures
            r.text() == "28-dummy02230ff"@,
    {
        let text = "28-dummy02230ff";
        proof {
            reveal_strlit("28-dummy02230ff");
            let c = text@;
            assert(c.len() == 15);
            assert(vstd::utf8::is_ascii_chars(c)) by {
                assert forall|i| 0 <= i < c.len() implies '\0' <= #[trigger] c[i] <= '\u{7f}' by {
                    assert(c[i] == seq!['2', '8', '-', 'd', 'u', 'm', 'm', 'y', '0', '2', '2', '3', '0', 'f', 'f'][i]);
                }
            }
            vstd::utf8::is_ascii_chars_encode_utf8(c);
            assert(encode_utf8(c)[0] == c[0] as u8);
            assert(encode_utf8(c)[1] == c[1] as u8);
        }
        Ds18b20Address(text.to_owned())
    }

    /// A copy of the address.
    pub fn duplicate(&self) -> (r: Ds18b20Address)
        ensures
            r.text() == self.text(),
    {
        proof {
            use_type_invariant(self);
        }
        Ds18b20Address(self.0.clone())
    }

    /// The text of the address.
    pub fn as_str(&self) -> (r: &str)
        ensures
            r@ == self.text(),
            valid_address(r@),
    {
        proof {
            use_type_invariant(self);
        }
        self.0.as_str()
    }
}

/// The file from which a sensor at `address` is read:
/// `DS18B20_DIR/<address>/temperature`.
pub open spec fn device_path_text(address: Seq<char>) -> Seq<char> {
    DS18B20_DIR@ + address + "/temperature"@
}

/// DS18B20 temperature sensor.
#[derive(Debug)]
pub struct Ds18b20 {
    address: Ds18b20Address,
}

impl Ds18b20 {
    /// The address of the sensor.
    pub closed spec fn address(&self) -> Seq<char> {
        self.address.text()
    }

    /// A sensor at `address`, once the address is verified.
    pub fn try_new(address: &str) -> (r: Result<Ds18b20, SensorError>)
        ensures
            r is Ok <==> valid_address(address@),
            r matches Ok(s) ==> s.address() == address@,
            r matches Err(e) ==> if !starts_with_family_code(encode_utf8(address@)) {
                e matches SensorError::InvalidAddressStart(s) && s@ == address@
            } else {
                e == SensorError::InvalidAddressLength(encode_utf8(address@).len() as usize)
            },
    {
        let address = Ds18b20Address::try_new(address)?;
        Ok(Ds18b20 { address })
    }

    /// The file from which a measurement is read.
    pub fn device_path(&self) -> (r: String)
        ensures
            r@ == device_path_text(self.address()),
    {
        let mut p = DS18B20_DIR.to_owned();
        push_text(&mut p, self.address.as_str());
        push_text(&mut p, "/temperature");
        p
    }
}

/// The names among `names` that are DS18B20 addresses, in order.
pub open spec fn address_names(names: Seq<Seq<char>>) -> Seq<Seq<char>> {
    names.filter(|s: Seq<char>| valid_address(s))
}

/// The DS18B20 addresses among the file names of the 1-wire device
/// directory, in order.
pub fn addresses_from_file_names(names: &Vec<String>) -> (r: Vec<Ds18b20Address>)
    ensures
        r@.map_values(|a: Ds18b20Address| a.text()) == address_names(
            names@.map_values(|s: String| s@),
        ),
{
    let ghost all = names@.map_values(|s: String| s@);
    let mut r: Vec<Ds18b20Address> = Vec::new();
    for i in 0..names.len()
        invariant
            all == names@.map_values(|s: String| s@),
            r@.map_values(|a: Ds18b20Address| a.text()) == address_names(all.take(i as int)),
    {
        proof {
            reveal_with_fuel(Seq::<_>::filter, 1);
            assert(all.take(i + 1).drop_last() =~= all.take(i as int));
            assert(all.take(i + 1).last() == names@[i as int]@);
        }
        match Ds18b20Address::try_new(names[i].as_str()) {
            Ok(a) => {
                r.push(a);
                assert(r@.map_values(|a: Ds18b20Address| a.text()) =~= address_names(
                    all.take(i as int),
                ).push(names@[i as int]@));
            },
            Err(_) => {},
        }
    }
    proof {
        assert(all.take(names@.len() as int) =~= all);
    }
    r
}

/// The sensors found on the 1-wire bus.
pub struct SensorList {
    pub ds18b20: Vec<Ds18b20Address>,
}

/// The text that lists addresses, one per line, each as `\t - <address>`.
pub open spec fn listed(addresses: Seq<Seq<char>>) -> Seq<char>
    decreases addresses.len(),
{
    if addresses.len() == 0 {
        Seq::empty()
    } else if addresses.len() == 1 {
        "\t - "@ + addresses[0]
    } else {
        listed(addresses.drop_last()) + "\n"@ + "\t - "@ + addresses.last()
    }
}

impl SensorList {
    /// The list of sensors from the file names of the 1-wire device
    /// directory; empty when the directory could not be read.
    pub fn list(entries: Result<Vec<String>, SensorError>) -> (r: SensorList)
        ensures
            match entries {
                Ok(names) => r.ds18b20@.map_values(|a: Ds18b20Address| a.text()) == address_names(
                    names@.map_values(|s: String| s@),
                ),
                Err(_) => r.ds18b20@.len() == 0,
            },
    {
        let ds18b20 = match entries {
            Ok(names) => addresses_from_file_names(&names),
            Err(_) => Vec::new(),
        };
        SensorList { ds18b20 }
    }

    /// A human-readable listing of the sensors.
    pub fn describe(&self) -> (r: String)
        ensures
            r@ == "Sensors:\n\nDS18B20:\n "@ + listed(
                self.ds18b20@.map_values(|a: Ds18b20Address| a.text()),
            ),
    {
        let ghost all = self.ds18b20@.map_values(|a: Ds18b20Address| a.text());
        let mut r = "Sensors:\n\nDS18B20:\n ".to_owned();
        let ghost head = r@;
        for i in 0..self.ds18b20.len()
            invariant
                all == self.ds18b20@.map_values(|a: Ds18b20Address| a.text()),
                head == "Sensors:\n\nDS18B20:\n "@,
                r@ == head + listed(all.take(i as int)),
        {
            proof {
                assert(all.take(i + 1).drop_last() =~= all.take(i as int));
            }
            if i > 0 {
                push_text(&mut r, "\n");
            }
            push_text(&mut r, "\t - ");
            push_text(&mut r, self.ds18b20[i].as_str());
            proof {
                if i == 0 {
                    assert(all.take(1)[0] == all[0]);
                }
                assert(r@ =~= head + listed(all.take(i + 1)));
            }
        }
        proof {
            assert(all.take(self.ds18b20@.len() as int) =~= all);
        }
        r
    }
}

/// Linux CPU temperature sensor.
#[derive(Clone, Debug)]
pub struct CpuTemp {
    /// Internal id, must be unique.
    pub id: String,
}

impl CpuTemp {
    /// A CPU temperature sensor named `id`.
    pub fn new(id: &str) -> (r: CpuTemp)
        ensures
            r.id@ == id@,
    {
        CpuTemp { id: id.to_owned() }
    }
}

/// The kind of a configured sensor.
#[derive(Clone, Debug)]
pub enum SensorType {
    /// A simulated sensor; the value is its measurement period in ms.
    Dummy(u64),
    /// A DS18B20 sensor at the given address.
    Dsb(String),
}

/// A sensor of the hardware configuration.
#[derive(Clone, Debug)]
pub struct SensorConfig {
    pub id: ClientId,
    pub type_: SensorType,
}

} // verus!
