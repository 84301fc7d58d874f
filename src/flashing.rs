//! The programmer command line that writes firmware onto a board.

use vstd::prelude::*;
use vstd::string::StringExecFns;
use vstd::utf8::{decode_utf8, valid_utf8};
use crate::chip::{ChipTypes, SoftTypes};
use crate::search::{find_all_matches, regex_find_all};
use crate::text::string_from_utf8;

verus! {

/// The pattern whose first match in a port name names an atmelice programmer.
pub const ATMELICE_PORT_PATTERN: &'static str = "d+";

/// The part name that avrdude is given for a board.
pub open spec fn avr_device(chip: ChipTypes) -> Seq<char> {
    match chip {
        ChipTypes::Green => "x16e5"@,
        _ => "m328p"@,
    }
}

/// The programmer that avrdude drives for a board.
pub open spec fn programmer_device(chip: ChipTypes) -> Seq<char> {
    match chip {
        ChipTypes::Green => "atmelice_pdi"@,
        _ => "arduino"@,
    }
}

/// The programmer port named by the matches found in a port name: `usb` and
/// the text of the first one.
pub open spec fn usb_port(found: Seq<Seq<u8>>) -> Option<Seq<char>> {
    if found.len() > 0 && valid_utf8(found[0]) {
        Some("usb"@ + decode_utf8(found[0]))
    } else {
        None
    }
}

/// The programmer port for an atmelice: named by the matches of
/// `ATMELICE_PORT_PATTERN` in the port name.
pub open spec fn atmelice_port(port: Seq<char>) -> Option<Seq<char>> {
    match regex_find_all(ATMELICE_PORT_PATTERN@, vstd::utf8::encode_utf8(port)) {
        Some(found) => usb_port(found),
        None => None,
    }
}

/// The port that avrdude is given: derived for an atmelice, as given otherwise.
pub open spec fn proper_port(chip: ChipTypes, port: Seq<char>) -> Option<Seq<char>> {
    match chip {
        ChipTypes::Green => atmelice_port(port),
        _ => Some(port),
    }
}

pub fn get_avr_device(chip: &ChipTypes) -> (r: &'static str)
    ensures
        r@ == avr_device(*chip),
{
    match chip {
        ChipTypes::Green => "x16e5",
        ChipTypes::BlueShiny => "m328p",
        ChipTypes::BlueNonShiny => "m328p",
    }
}

pub fn get_programmer_device(chip: &ChipTypes) -> (r: &'static str)
    ensures
        r@ == programmer_device(*chip),
{
    match chip {
        ChipTypes::Green => "atmelice_pdi",
        ChipTypes::BlueShiny => "arduino",
        ChipTypes::BlueNonShiny => "arduino",
    }
}

/// The programmer port named by the matches found in a port name (see
/// `usb_port`).
pub fn usb_port_from_matches(found: &Vec<Vec<u8>>) -> (r: Option<String>)
    ensures
        opt_string_view(r) == usb_port(found@.map_values(|m: Vec<u8>| m@)),
{
    if found.len() == 0 {
        return None;
    }
    let first = found[0].clone();
    assert(first@ == found@[0]@);
    match string_from_utf8(first) {
        Some(text) => Some(String::from_str("usb").concat(text.as_str())),
        None => None,
    }
}

pub fn extract_for_atmelice(initial_port: &str) -> (r: Option<String>)
    ensures
        opt_string_view(r) == atmelice_port(initial_port@),
{
    match find_all_matches(ATMELICE_PORT_PATTERN, initial_port.as_bytes()) {
        Some(found) => usb_port_from_matches(&found),
        None => None,
    }
}

pub open spec fn opt_string_view(s: Option<String>) -> Option<Seq<char>> {
    match s {
        Some(t) => Some(t@),
        None => None,
    }
}

pub fn get_proper_port(chip: &ChipTypes, initial_port: &str) -> (r: Option<String>)
    ensures
        opt_string_view(r) == proper_port(*chip, initial_port@),
{
    match chip {
        ChipTypes::Green => extract_for_atmelice(initial_port),
        ChipTypes::BlueShiny => Some(String::from_str(initial_port)),
        ChipTypes::BlueNonShiny => Some(String::from_str(initial_port)),
    }
}


/// The directory that holds a board's firmware images.
pub open spec fn firmware_dir(chip: ChipTypes) -> Seq<char> {
    match chip {
        ChipTypes::Green => "green"@,
        ChipTypes::BlueShiny => "blue/shiny"@,
        ChipTypes::BlueNonShiny => "blue/nonshiny"@,
    }
}

/// The firmware image for a role, built for a board's part.
pub open spec fn firmware_file(chip: ChipTypes, soft: SoftTypes) -> Seq<char> {
    let stem = match soft {
        SoftTypes::Master => "master."@,
        SoftTypes::Relay1 => "relay_mk1."@,
        SoftTypes::Relay1_5 => "relay_mk1_5."@,
    };
    stem + avr_device(chip) + ".hex"@
}

pub open spec fn firmware_path(chip: ChipTypes, soft: SoftTypes) -> Seq<char> {
    "hex/"@ + firmware_dir(chip) + "/"@ + firmware_file(chip, soft)
}

/// Why no programmer command can be built.
#[derive(Debug, Clone, Copy, PartialEq, Eq, Structural)]
pub enum FlashError {
    /// No programmer port can be derived from the given port.
    NoProgrammerPort,
    /// A relay image needs an identifier to write into its EEPROM.
    MissingId,
}

/// The avrdude arguments that flash a board: a master image alone at 57600
/// baud; a relay image together with the EEPROM image of its identifier.
pub open spec fn flash_arguments(
    chip: ChipTypes,
    soft: SoftTypes,
    port: Seq<char>,
    id: Option<Seq<char>>,
) -> Result<Seq<Seq<char>>, FlashError> {
    match proper_port(chip, port) {
        None => Err(FlashError::NoProgrammerPort),
        Some(p) => match soft {
            SoftTypes::Master => Ok(
                seq![
                    "avrdude"@, "-p"@, avr_device(chip), "-P"@, p, "-c"@, programmer_device(chip),
                    "-b"@, "57600"@, "-U"@, "flash:w:"@ + firmware_path(chip, soft),
                ],
            ),
            _ => match id {
                None => Err(FlashError::MissingId),
                Some(i) => Ok(
                    seq![
                        "avrdude"@, "-p"@, avr_device(chip), "-c"@, programmer_device(chip),
                        "-U"@, "flash:w:"@ + firmware_path(chip, soft), "-U"@,
                        "eeprom:w:hex/eeproms/eeprom_"@ + i + ".hex"@, "-P"@, p,
                    ],
                ),
            },
        },
    }
}

fn firmware_path_string(chip: &ChipTypes, soft: &SoftTypes) -> (r: String)
    ensures
        r@ == firmware_path(*chip, *soft),
{
    let dir = match chip {
        ChipTypes::Green => "green",
        ChipTypes::BlueShiny => "blue/shiny",
        ChipTypes::BlueNonShiny => "blue/nonshiny",
    };
    let stem = match soft {
        SoftTypes::Master => "master.",
        SoftTypes::Relay1 => "relay_mk1.",
        SoftTypes::Relay1_5 => "relay_mk1_5.",
    };
    let mut path = String::from_str("hex/");
    path.append(dir);
    path.append("/");
    path.append(stem);
    path.append(get_avr_device(chip));
    path.append(".hex");
    assert(path@ =~= firmware_path(*chip, *soft));
    path
}

pub open spec fn opt_str_view(s: Option<&str>) -> Option<Seq<char>> {
    match s {
        Some(t) => Some(t@),
        None => None,
    }
}

/// The avrdude arguments that flash a board (see `flash_arguments`).
pub fn flash_command(
    chip: &ChipTypes,
    soft: &SoftTypes,
    port_to_flash: &str,
    id_to_flash: Option<&str>,
) -> (r: Result<Vec<String>, FlashError>)
    ensures
        match r {
            Ok(args) => flash_arguments(*chip, *soft, port_to_flash@, opt_str_view(id_to_flash))
                == Ok::<Seq<Seq<char>>, FlashError>(args@.map_values(|a: String| a@)),
            Err(e) => flash_arguments(*chip, *soft, port_to_flash@, opt_str_view(id_to_flash))
                == Err::<Seq<Seq<char>>, FlashError>(e),
        },
{
    let port = match get_proper_port(chip, port_to_flash) {
        Some(p) => p,
        None => return Err(FlashError::NoProgrammerPort),
    };
    let mut image = String::from_str("flash:w:");
    image.append(firmware_path_string(chip, soft).as_str());
    let mut args: Vec<String> = Vec::new();
    args.push(String::from_str("avrdude"));
    args.push(String::from_str("-p"));
    args.push(String::from_str(get_avr_device(chip)));
    match soft {
        SoftTypes::Master => {
            args.push(String::from_str("-P"));
            args.push(port);
            args.push(String::from_str("-c"));
            args.push(String::from_str(get_programmer_device(chip)));
            args.push(String::from_str("-b"));
            args.push(String::from_str("57600"));
            args.push(String::from_str("-U"));
            args.push(image);
        },
        _ => {
            let id = match id_to_flash {
                Some(i) => i,
                None => return Err(FlashError::MissingId),
            };
            let mut eeprom = String::from_str("eeprom:w:hex/eeproms/eeprom_");
            eeprom.append(id);
            eeprom.append(".hex");
            args.push(String::from_str("-c"));
            args.push(String::from_str(get_programmer_device(chip)));
            args.push(String::from_str("-U"));
            args.push(image);
            args.push(String::from_str("-U"));
            args.push(eeprom);
            args.push(String::from_str("-P"));
            args.push(port);
        },
    }
    assert(args@.map_values(|a: String| a@) =~= flash_arguments(
        *chip,
        *soft,
        port_to_flash@,
        opt_str_view(id_to_flash),
    )->Ok_0);
    Ok(args)
}

} // verus!
