use vstd::prelude::*;
use vstd::string::StringExecFns;

verus! {

/// The linker script that every generated layout includes.
pub const LIBTOCK_LAYOUT_NAME: &'static str = "libtock_layout.ld";

/// Where an application lives in flash and RAM, as the linker script gives
/// the numbers: a start address and a length for each.
pub struct Layout {
    pub flash_start: String,
    pub flash_len: String,
    pub ram_start: String,
    pub ram_len: String,
}

impl Layout {
    pub open spec fn parts(&self) -> (Seq<char>, Seq<char>, Seq<char>, Seq<char>) {
        (self.flash_start@, self.flash_len@, self.ram_start@, self.ram_len@)
    }

    fn of(flash_start: &str, flash_len: &str, ram_start: &str, ram_len: &str) -> (l: Layout)
        ensures
            l.parts() == (flash_start@, flash_len@, ram_start@, ram_len@),
    {
        Layout {
            flash_start: flash_start.to_owned(),
            flash_len: flash_len.to_owned(),
            ram_start: ram_start.to_owned(),
            ram_len: ram_len.to_owned(),
        }
    }
}

/// Why no layout could be chosen.
pub enum LayoutError {
    /// The platform named is not one of the known platforms.
    UnknownPlatform(String),
    /// Neither a platform nor both start addresses were given, or both were.
    Unspecified,
}

/// The flash start and length and the RAM start and length of each known
/// platform.
pub open spec fn spec_platform(name: Seq<char>) -> Option<(Seq<char>, Seq<char>, Seq<char>, Seq<char>)> {
    if name == "apollo3"@ {
        Some(("0x00040000"@, "0x00BE000"@, "0x10004000"@, "0x03000"@))
    } else if name == "clue_nrf52840"@ {
        Some(("0x00080000"@, "512K"@, "0x20006000"@, "216K"@))
    } else if name == "esp32_c3_devkitm_1"@ {
        Some(("0x403B0000"@, "0x0030000"@, "0x3FCA2000"@, "0x2E000"@))
    } else if name == "hail"@ {
        Some(("0x00030000"@, "0x0040000"@, "0x20008000"@, "62K"@))
    } else if name == "hifive1"@ {
        Some(("0x20040000"@, "32M"@, "0x80003000"@, "0x01000"@))
    } else if name == "imix"@ {
        Some(("0x00040000"@, "0x0040000"@, "0x20008000"@, "62K"@))
    } else if name == "imxrt1050"@ {
        Some(("0x63002000"@, "0x1000000"@, "0x20004000"@, "112K"@))
    } else if name == "microbit_v2"@ {
        Some(("0x00040000"@, "256K"@, "0x20004000"@, "112K"@))
    } else if name == "msp432"@ {
        Some(("0x00020000"@, "0x0020000"@, "0x20004000"@, "0x02000"@))
    } else if name == "nano_rp2040_connect"@ {
        Some(("0x10020000"@, "256K"@, "0x20004000"@, "248K"@))
    } else if name == "nrf52"@ {
        Some(("0x00030000"@, "0x0060000"@, "0x20004000"@, "62K"@))
    } else if name == "nrf52840"@ {
        Some(("0x00040000"@, "768K"@, "0x20010000"@, "128k"@))
    } else if name == "nucleo_f429zi"@ {
        Some(("0x08040000"@, "255K"@, "0x20004000"@, "112K"@))
    } else if name == "nucleo_f446re"@ {
        Some(("0x08040000"@, "255K"@, "0x20004000"@, "176K"@))
    } else if name == "opentitan"@ {
        Some(("0x20030000"@, "32M"@, "0x10006000"@, "126K"@))
    } else if name == "pico_explorer_base"@ {
        Some(("0x10040000"@, "256K"@, "0x20012000"@, "192K"@))
    } else if name == "qemu_rv32_virt"@ {
        Some(("0x80100000"@, "0x0100000"@, "0x8020a000"@, "0xf6000"@))
    } else if name == "raspberry_pi_pico"@ {
        Some(("0x10040000"@, "256K"@, "0x20012000"@, "192K"@))
    } else if name == "stm32f3discovery"@ {
        Some(("0x08020000"@, "0x0020000"@, "0x20004000"@, "48K"@))
    } else if name == "stm32f412gdiscovery"@ {
        Some(("0x08030000"@, "256K"@, "0x20004000"@, "112K"@))
    } else if name == "nano33ble"@ {
        Some(("0x00050000"@, "704K"@, "0x20005000"@, "240K"@))
    } else {
        None
    }
}

/// The known platforms, one row each: the name, then the flash start, the
/// flash length, the RAM start and the RAM length.
pub open spec fn platform_row(i: int) -> (Seq<char>, Seq<char>, Seq<char>, Seq<char>, Seq<char>) {
    if i == 0 {
        ("apollo3"@, "0x00040000"@, "0x00BE000"@, "0x10004000"@, "0x03000"@)
    } else if i == 1 {
        ("clue_nrf52840"@, "0x00080000"@, "512K"@, "0x20006000"@, "216K"@)
    } else if i == 2 {
        ("esp32_c3_devkitm_1"@, "0x403B0000"@, "0x0030000"@, "0x3FCA2000"@, "0x2E000"@)
    } else if i == 3 {
        ("hail"@, "0x00030000"@, "0x0040000"@, "0x20008000"@, "62K"@)
    } else if i == 4 {
        ("hifive1"@, "0x20040000"@, "32M"@, "0x80003000"@, "0x01000"@)
    } else if i == 5 {
        ("imix"@, "0x00040000"@, "0x0040000"@, "0x20008000"@, "62K"@)
    } else if i == 6 {
        ("imxrt1050"@, "0x63002000"@, "0x1000000"@, "0x20004000"@, "112K"@)
    } else if i == 7 {
        ("microbit_v2"@, "0x00040000"@, "256K"@, "0x20004000"@, "112K"@)
    } else if i == 8 {
        ("msp432"@, "0x00020000"@, "0x0020000"@, "0x20004000"@, "0x02000"@)
    } else if i == 9 {
        ("nano_rp2040_connect"@, "0x10020000"@, "256K"@, "0x20004000"@, "248K"@)
    } else if i == 10 {
        ("nrf52"@, "0x00030000"@, "0x0060000"@, "0x20004000"@, "62K"@)
    } else if i == 11 {
        ("nrf52840"@, "0x00040000"@, "768K"@, "0x20010000"@, "128k"@)
    } else if i == 12 {
        ("nucleo_f429zi"@, "0x08040000"@, "255K"@, "0x20004000"@, "112K"@)
    } else if i == 13 {
        ("nucleo_f446re"@, "0x08040000"@, "255K"@, "0x20004000"@, "176K"@)
    } else if i == 14 {
        ("opentitan"@, "0x20030000"@, "32M"@, "0x10006000"@, "126K"@)
    } else if i == 15 {
        ("pico_explorer_base"@, "0x10040000"@, "256K"@, "0x20012000"@, "192K"@)
    } else if i == 16 {
        ("qemu_rv32_virt"@, "0x80100000"@, "0x0100000"@, "0x8020a000"@, "0xf6000"@)
    } else if i == 17 {
        ("raspberry_pi_pico"@, "0x10040000"@, "256K"@, "0x20012000"@, "192K"@)
    } else if i == 18 {
        ("stm32f3discovery"@, "0x08020000"@, "0x0020000"@, "0x20004000"@, "48K"@)
    } else if i == 19 {
        ("stm32f412gdiscovery"@, "0x08030000"@, "256K"@, "0x20004000"@, "112K"@)
    } else if i == 20 {
        ("nano33ble"@, "0x00050000"@, "704K"@, "0x20005000"@, "240K"@)
    } else {
        (Seq::empty(), Seq::empty(), Seq::empty(), Seq::empty(), Seq::empty())
    }
}

/// The number of known platforms.
pub open spec fn platform_count() -> int {
    21
}

/// Each known platform is accepted, with exactly the flash and RAM numbers
/// of its row of the table.
pub proof fn lemma_known_platforms(i: int)
    requires
        0 <= i < platform_count(),
    ensures
        spec_platform(platform_row(i).0) == Some(
            (platform_row(i).1, platform_row(i).2, platform_row(i).3, platform_row(i).4),
        ),
{
    reveal_strlit("apollo3");
    reveal_strlit("clue_nrf52840");
    reveal_strlit("esp32_c3_devkitm_1");
    reveal_strlit("hail");
    reveal_strlit("hifive1");
    reveal_strlit("imix");
    reveal_strlit("imxrt1050");
    reveal_strlit("microbit_v2");
    reveal_strlit("msp432");
    reveal_strlit("nano_rp2040_connect");
    reveal_strlit("nrf52");
    reveal_strlit("nrf52840");
    reveal_strlit("nucleo_f429zi");
    reveal_strlit("nucleo_f446re");
    reveal_strlit("opentitan");
    reveal_strlit("pico_explorer_base");
    reveal_strlit("qemu_rv32_virt");
    reveal_strlit("raspberry_pi_pico");
    reveal_strlit("stm32f3discovery");
    reveal_strlit("stm32f412gdiscovery");
    reveal_strlit("nano33ble");
    if i == 0 {
    } else if i == 1 {
        assert("apollo3"@.len() != "clue_nrf52840"@.len());
    } else if i == 2 {
        assert("apollo3"@.len() != "esp32_c3_devkitm_1"@.len());
        assert("clue_nrf52840"@.len() != "esp32_c3_devkitm_1"@.len());
    } else if i == 3 {
        assert("apollo3"@.len() != "hail"@.len());
        assert("clue_nrf52840"@.len() != "hail"@.len());
        assert("esp32_c3_devkitm_1"@.len() != "hail"@.len());
    } else if i == 4 {
        assert("apollo3"@[0] != "hifive1"@[0]);
        assert("clue_nrf52840"@.len() != "hifive1"@.len());
        assert("esp32_c3_devkitm_1"@.len() != "hifive1"@.len());
        assert("hail"@.len() != "hifive1"@.len());
    } else if i == 5 {
        assert("apollo3"@.len() != "imix"@.len());
        assert("clue_nrf52840"@.len() != "imix"@.len());
        assert("esp32_c3_devkitm_1"@.len() != "imix"@.len());
        assert("hail"@[0] != "imix"@[0]);
        assert("hifive1"@.len() != "imix"@.len());
    } else if i == 6 {
        assert("apollo3"@.len() != "imxrt1050"@.len());
        assert("clue_nrf52840"@.len() != "imxrt1050"@.len());
        assert("esp32_c3_devkitm_1"@.len() != "imxrt1050"@.len());
        assert("hail"@.len() != "imxrt1050"@.len());
        assert("hifive1"@.len() != "imxrt1050"@.len());
        assert("imix"@.len() != "imxrt1050"@.len());
    } else if i == 7 {
        assert("apollo3"@.len() != "microbit_v2"@.len());
        assert("clue_nrf52840"@.len() != "microbit_v2"@.len());
        assert("esp32_c3_devkitm_1"@.len() != "microbit_v2"@.len());
        assert("hail"@.len() != "microbit_v2"@.len());
        assert("hifive1"@.len() != "microbit_v2"@.len());
        assert("imix"@.len() != "microbit_v2"@.len());
        assert("imxrt1050"@.len() != "microbit_v2"@.len());
    } else if i == 8 {
        assert("apollo3"@.len() != "msp432"@.len());
        assert("clue_nrf52840"@.len() != "msp432"@.len());
        assert("esp32_c3_devkitm_1"@.len() != "msp432"@.len());
        assert("hail"@.len() != "msp432"@.len());
        assert("hifive1"@.len() != "msp432"@.len());
        assert("imix"@.len() != "msp432"@.len());
        assert("imxrt1050"@.len() != "msp432"@.len());
        assert("microbit_v2"@.len() != "msp432"@.len());
    } else if i == 9 {
        assert("apollo3"@.len() != "nano_rp2040_connect"@.len());
        assert("clue_nrf52840"@.len() != "nano_rp2040_connect"@.len());
        assert("esp32_c3_devkitm_1"@.len() != "nano_rp2040_connect"@.len());
        assert("hail"@.len() != "nano_rp2040_connect"@.len());
        assert("hifive1"@.len() != "nano_rp2040_connect"@.len());
        assert("imix"@.len() != "nano_rp2040_connect"@.len());
        assert("imxrt1050"@.len() != "nano_rp2040_connect"@.len());
        assert("microbit_v2"@.len() != "nano_rp2040_connect"@.len());
        assert("msp432"@.len() != "nano_rp2040_connect"@.len());
    } else if i == 10 {
        assert("apollo3"@.len() != "nrf52"@.len());
        assert("clue_nrf52840"@.len() != "nrf52"@.len());
        assert("esp32_c3_devkitm_1"@.len() != "nrf52"@.len());
        assert("hail"@.len() != "nrf52"@.len());
        assert("hifive1"@.len() != "nrf52"@.len());
        assert("imix"@.len() != "nrf52"@.len());
        assert("imxrt1050"@.len() != "nrf52"@.len());
        assert("microbit_v2"@.len() != "nrf52"@.len());
        assert("msp432"@.len() != "nrf52"@.len());
        assert("nano_rp2040_connect"@.len() != "nrf52"@.len());
    } else if i == 11 {
        assert("apollo3"@.len() != "nrf52840"@.len());
        assert("clue_nrf52840"@.len() != "nrf52840"@.len());
        assert("esp32_c3_devkitm_1"@.len() != "nrf52840"@.len());
        assert("hail"@.len() != "nrf52840"@.len());
        assert("hifive1"@.len() != "nrf52840"@.len());
        assert("imix"@.len() != "nrf52840"@.len());
        assert("imxrt1050"@.len() != "nrf52840"@.len());
        assert("microbit_v2"@.len() != "nrf52840"@.len());
        assert("msp432"@.len() != "nrf52840"@.len());
        assert("nano_rp2040_connect"@.len() != "nrf52840"@.len());
        assert("nrf52"@.len() != "nrf52840"@.len());
    } else if i == 12 {
        assert("apollo3"@.len() != "nucleo_f429zi"@.len());
        assert("clue_nrf52840"@[0] != "nucleo_f429zi"@[0]);
        assert("esp32_c3_devkitm_1"@.len() != "nucleo_f429zi"@.len());
        assert("hail"@.len() != "nucleo_f429zi"@.len());
        assert("hifive1"@.len() != "nucleo_f429zi"@.len());
        assert("imix"@.len() != "nucleo_f429zi"@.len());
        assert("imxrt1050"@.len() != "nucleo_f429zi"@.len());
        assert("microbit_v2"@.len() != "nucleo_f429zi"@.len());
        assert("msp432"@.len() != "nucleo_f429zi"@.len());
        assert("nano_rp2040_connect"@.len() != "nucleo_f429zi"@.len());
        assert("nrf52"@.len() != "nucleo_f429zi"@.len());
        assert("nrf52840"@.len() != "nucleo_f429zi"@.len());
    } else if i == 13 {
        assert("apollo3"@.len() != "nucleo_f446re"@.len());
        assert("clue_nrf52840"@[0] != "nucleo_f446re"@[0]);
        assert("esp32_c3_devkitm_1"@.len() != "nucleo_f446re"@.len());
        assert("hail"@.len() != "nucleo_f446re"@.len());
        assert("hifive1"@.len() != "nucleo_f446re"@.len());
        assert("imix"@.len() != "nucleo_f446re"@.len());
        assert("imxrt1050"@.len() != "nucleo_f446re"@.len());
        assert("microbit_v2"@.len() != "nucleo_f446re"@.len());
        assert("msp432"@.len() != "nucleo_f446re"@.len());
        assert("nano_rp2040_connect"@.len() != "nucleo_f446re"@.len());
        assert("nrf52"@.len() != "nucleo_f446re"@.len());
        assert("nrf52840"@.len() != "nucleo_f446re"@.len());
        assert("nucleo_f429zi"@[9] != "nucleo_f446re"@[9]);
    } else if i == 14 {
        assert("apollo3"@.len() != "opentitan"@.len());
        assert("clue_nrf52840"@.len() != "opentitan"@.len());
        assert("esp32_c3_devkitm_1"@.len() != "opentitan"@.len());
        assert("hail"@.len() != "opentitan"@.len());
        assert("hifive1"@.len() != "opentitan"@.len());
        assert("imix"@.len() != "opentitan"@.len());
        assert("imxrt1050"@[0] != "opentitan"@[0]);
        assert("microbit_v2"@.len() != "opentitan"@.len());
        assert("msp432"@.len() != "opentitan"@.len());
        assert("nano_rp2040_connect"@.len() != "opentitan"@.len());
        assert("nrf52"@.len() != "opentitan"@.len());
        assert("nrf52840"@.len() != "opentitan"@.len());
        assert("nucleo_f429zi"@.len() != "opentitan"@.len());
        assert("nucleo_f446re"@.len() != "opentitan"@.len());
    } else if i == 15 {
        assert("apollo3"@.len() != "pico_explorer_base"@.len());
        assert("clue_nrf52840"@.len() != "pico_explorer_base"@.len());
        assert("esp32_c3_devkitm_1"@[0] != "pico_explorer_base"@[0]);
        assert("hail"@.len() != "pico_explorer_base"@.len());
        assert("hifive1"@.len() != "pico_explorer_base"@.len());
        assert("imix"@.len() != "pico_explorer_base"@.len());
        assert("imxrt1050"@.len() != "pico_explorer_base"@.len());
        assert("microbit_v2"@.len() != "pico_explorer_base"@.len());
        assert("msp432"@.len() != "pico_explorer_base"@.len());
        assert("nano_rp2040_connect"@.len() != "pico_explorer_base"@.len());
        assert("nrf52"@.len() != "pico_explorer_base"@.len());
        assert("nrf52840"@.len() != "pico_explorer_base"@.len());
        assert("nucleo_f429zi"@.len() != "pico_explorer_base"@.len());
        assert("nucleo_f446re"@.len() != "pico_explorer_base"@.len());
        assert("opentitan"@.len() != "pico_explorer_base"@.len());
    } else if i == 16 {
        assert("apollo3"@.len() != "qemu_rv32_virt"@.len());
        assert("clue_nrf52840"@.len() != "qemu_rv32_virt"@.len());
        assert("esp32_c3_devkitm_1"@.len() != "qemu_rv32_virt"@.len());
        assert("hail"@.len() != "qemu_rv32_virt"@.len());
        assert("hifive1"@.len() != "qemu_rv32_virt"@.len());
        assert("imix"@.len() != "qemu_rv32_virt"@.len());
        assert("imxrt1050"@.len() != "qemu_rv32_virt"@.len());
        assert("microbit_v2"@.len() != "qemu_rv32_virt"@.len());
        assert("msp432"@.len() != "qemu_rv32_virt"@.len());
        assert("nano_rp2040_connect"@.len() != "qemu_rv32_virt"@.len());
        assert("nrf52"@.len() != "qemu_rv32_virt"@.len());
        assert("nrf52840"@.len() != "qemu_rv32_virt"@.len());
        assert("nucleo_f429zi"@.len() != "qemu_rv32_virt"@.len());
        assert("nucleo_f446re"@.len() != "qemu_rv32_virt"@.len());
        assert("opentitan"@.len() != "qemu_rv32_virt"@.len());
        assert("pico_explorer_base"@.len() != "qemu_rv32_virt"@.len());
    } else if i == 17 {
        assert("apollo3"@.len() != "raspberry_pi_pico"@.len());
        assert("clue_nrf52840"@.len() != "raspberry_pi_pico"@.len());
        assert("esp32_c3_devkitm_1"@.len() != "raspberry_pi_pico"@.len());
        assert("hail"@.len() != "raspberry_pi_pico"@.len());
        assert("hifive1"@.len() != "raspberry_pi_pico"@.len());
        assert("imix"@.len() != "raspberry_pi_pico"@.len());
        assert("imxrt1050"@.len() != "raspberry_pi_pico"@.len());
        assert("microbit_v2"@.len() != "raspberry_pi_pico"@.len());
        assert("msp432"@.len() != "raspberry_pi_pico"@.len());
        assert("nano_rp2040_connect"@.len() != "raspberry_pi_pico"@.len());
        assert("nrf52"@.len() != "raspberry_pi_pico"@.len());
        assert("nrf52840"@.len() != "raspberry_pi_pico"@.len());
        assert("nucleo_f429zi"@.len() != "raspberry_pi_pico"@.len());
        assert("nucleo_f446re"@.len() != "raspberry_pi_pico"@.len());
        assert("opentitan"@.len() != "raspberry_pi_pico"@.len());
        assert("pico_explorer_base"@.len() != "raspberry_pi_pico"@.len());
        assert("qemu_rv32_virt"@.len() != "raspberry_pi_pico"@.len());
    } else if i == 18 {
        assert("apollo3"@.len() != "stm32f3discovery"@.len());
        assert("clue_nrf52840"@.len() != "stm32f3discovery"@.len());
        assert("esp32_c3_devkitm_1"@.len() != "stm32f3discovery"@.len());
        assert("hail"@.len() != "stm32f3discovery"@.len());
        assert("hifive1"@.len() != "stm32f3discovery"@.len());
        assert("imix"@.len() != "stm32f3discovery"@.len());
        assert("imxrt1050"@.len() != "stm32f3discovery"@.len());
        assert("microbit_v2"@.len() != "stm32f3discovery"@.len());
        assert("msp432"@.len() != "stm32f3discovery"@.len());
        assert("nano_rp2040_connect"@.len() != "stm32f3discovery"@.len());
        assert("nrf52"@.len() != "stm32f3discovery"@.len());
        assert("nrf52840"@.len() != "stm32f3discovery"@.len());
        assert("nucleo_f429zi"@.len() != "stm32f3discovery"@.len());
        assert("nucleo_f446re"@.len() != "stm32f3discovery"@.len());
        assert("opentitan"@.len() != "stm32f3discovery"@.len());
        assert("pico_explorer_base"@.len() != "stm32f3discovery"@.len());
        assert("qemu_rv32_virt"@.len() != "stm32f3discovery"@.len());
        assert("raspberry_pi_pico"@.len() != "stm32f3discovery"@.len());
    } else if i == 19 {
        assert("apollo3"@.len() != "stm32f412gdiscovery"@.len());
        assert("clue_nrf52840"@.len() != "stm32f412gdiscovery"@.len());
        assert("esp32_c3_devkitm_1"@.len() != "stm32f412gdiscovery"@.len());
        assert("hail"@.len() != "stm32f412gdiscovery"@.len());
        assert("hifive1"@.len() != "stm32f412gdiscovery"@.len());
        assert("imix"@.len() != "stm32f412gdiscovery"@.len());
        assert("imxrt1050"@.len() != "stm32f412gdiscovery"@.len());
        assert("microbit_v2"@.len() != "stm32f412gdiscovery"@.len());
        assert("msp432"@.len() != "stm32f412gdiscovery"@.len());
        assert("nano_rp2040_connect"@[0] != "stm32f412gdiscovery"@[0]);
        assert("nrf52"@.len() != "stm32f412gdiscovery"@.len());
        assert("nrf52840"@.len() != "stm32f412gdiscovery"@.len());
        assert("nucleo_f429zi"@.len() != "stm32f412gdiscovery"@.len());
        assert("nucleo_f446re"@.len() != "stm32f412gdiscovery"@.len());
        assert("opentitan"@.len() != "stm32f412gdiscovery"@.len());
        assert("pico_explorer_base"@.len() != "stm32f412gdiscovery"@.len());
        assert("qemu_rv32_virt"@.len() != "stm32f412gdiscovery"@.len());
        assert("raspberry_pi_pico"@.len() != "stm32f412gdiscovery"@.len());
        assert("stm32f3discovery"@.len() != "stm32f412gdiscovery"@.len());
    } else if i == 20 {
        assert("apollo3"@.len() != "nano33ble"@.len());
        assert("clue_nrf52840"@.len() != "nano33ble"@.len());
        assert("esp32_c3_devkitm_1"@.len() != "nano33ble"@.len());
        assert("hail"@.len() != "nano33ble"@.len());
        assert("hifive1"@.len() != "nano33ble"@.len());
        assert("imix"@.len() != "nano33ble"@.len());
        assert("imxrt1050"@[0] != "nano33ble"@[0]);
        assert("microbit_v2"@.len() != "nano33ble"@.len());
        assert("msp432"@.len() != "nano33ble"@.len());
        assert("nano_rp2040_connect"@.len() != "nano33ble"@.len());
        assert("nrf52"@.len() != "nano33ble"@.len());
        assert("nrf52840"@.len() != "nano33ble"@.len());
        assert("nucleo_f429zi"@.len() != "nano33ble"@.len());
        assert("nucleo_f446re"@.len() != "nano33ble"@.len());
        assert("opentitan"@[0] != "nano33ble"@[0]);
        assert("pico_explorer_base"@.len() != "nano33ble"@.len());
        assert("qemu_rv32_virt"@.len() != "nano33ble"@.len());
        assert("raspberry_pi_pico"@.len() != "nano33ble"@.len());
        assert("stm32f3discovery"@.len() != "nano33ble"@.len());
        assert("stm32f412gdiscovery"@.len() != "nano33ble"@.len());
    }
}

/// A name is accepted only if it is the name of a row of the table.
pub proof fn lemma_only_known_platforms(name: Seq<char>)
    ensures
        spec_platform(name) is Some <==> exists|i: int|
            0 <= i < platform_count() && #[trigger] platform_row(i).0 == name,
{
    if name == "apollo3"@ {
        assert(platform_row(0).0 == name);
    } else if name == "clue_nrf52840"@ {
        assert(platform_row(1).0 == name);
    } else if name == "esp32_c3_devkitm_1"@ {
        assert(platform_row(2).0 == name);
    } else if name == "hail"@ {
        assert(platform_row(3).0 == name);
    } else if name == "hifive1"@ {
        assert(platform_row(4).0 == name);
    } else if name == "imix"@ {
        assert(platform_row(5).0 == name);
    } else if name == "imxrt1050"@ {
        assert(platform_row(6).0 == name);
    } else if name == "microbit_v2"@ {
        assert(platform_row(7).0 == name);
    } else if name == "msp432"@ {
        assert(platform_row(8).0 == name);
    } else if name == "nano_rp2040_connect"@ {
        assert(platform_row(9).0 == name);
    } else if name == "nrf52"@ {
        assert(platform_row(10).0 == name);
    } else if name == "nrf52840"@ {
        assert(platform_row(11).0 == name);
    } else if name == "nucleo_f429zi"@ {
        assert(platform_row(12).0 == name);
    } else if name == "nucleo_f446re"@ {
        assert(platform_row(13).0 == name);
    } else if name == "opentitan"@ {
        assert(platform_row(14).0 == name);
    } else if name == "pico_explorer_base"@ {
        assert(platform_row(15).0 == name);
    } else if name == "qemu_rv32_virt"@ {
        assert(platform_row(16).0 == name);
    } else if name == "raspberry_pi_pico"@ {
        assert(platform_row(17).0 == name);
    } else if name == "stm32f3discovery"@ {
        assert(platform_row(18).0 == name);
    } else if name == "stm32f412gdiscovery"@ {
        assert(platform_row(19).0 == name);
    } else if name == "nano33ble"@ {
        assert(platform_row(20).0 == name);
    }
    if exists|i: int| 0 <= i < platform_count() && #[trigger] platform_row(i).0 == name {
        let i = choose|i: int| 0 <= i < platform_count() && #[trigger] platform_row(i).0 == name;
        lemma_known_platforms(i);
    }
}

/// The layout of a known platform.
pub fn platform_layout(name: &String) -> (r: Option<Layout>)
    ensures
        match spec_platform(name@) {
            Some(p) => r matches Some(l) && l.parts() == p,
            None => r is None,
        },
{
    if *name == "apollo3".to_owned() {
        Some(Layout::of("0x00040000", "0x00BE000", "0x10004000", "0x03000"))
    } else if *name == "clue_nrf52840".to_owned() {
        Some(Layout::of("0x00080000", "512K", "0x20006000", "216K"))
    } else if *name == "esp32_c3_devkitm_1".to_owned() {
        Some(Layout::of("0x403B0000", "0x0030000", "0x3FCA2000", "0x2E000"))
    } else if *name == "hail".to_owned() {
        Some(Layout::of("0x00030000", "0x0040000", "0x20008000", "62K"))
    } else if *name == "hifive1".to_owned() {
        Some(Layout::of("0x20040000", "32M", "0x80003000", "0x01000"))
    } else if *name == "imix".to_owned() {
        Some(Layout::of("0x00040000", "0x0040000", "0x20008000", "62K"))
    } else if *name == "imxrt1050".to_owned() {
        Some(Layout::of("0x63002000", "0x1000000", "0x20004000", "112K"))
    } else if *name == "microbit_v2".to_owned() {
        Some(Layout::of("0x00040000", "256K", "0x20004000", "112K"))
    } else if *name == "msp432".to_owned() {
        Some(Layout::of("0x00020000", "0x0020000", "0x20004000", "0x02000"))
    } else if *name == "nano_rp2040_connect".to_owned() {
        Some(Layout::of("0x10020000", "256K", "0x20004000", "248K"))
    } else if *name == "nrf52".to_owned() {
        Some(Layout::of("0x00030000", "0x0060000", "0x20004000", "62K"))
    } else if *name == "nrf52840".to_owned() {
        Some(Layout::of("0x00040000", "768K", "0x20010000", "128k"))
    } else if *name == "nucleo_f429zi".to_owned() {
        Some(Layout::of("0x08040000", "255K", "0x20004000", "112K"))
    } else if *name == "nucleo_f446re".to_owned() {
        Some(Layout::of("0x08040000", "255K", "0x20004000", "176K"))
    } else if *name == "opentitan".to_owned() {
        Some(Layout::of("0x20030000", "32M", "0x10006000", "126K"))
    } else if *name == "pico_explorer_base".to_owned() {
        Some(Layout::of("0x10040000", "256K", "0x20012000", "192K"))
    } else if *name == "qemu_rv32_virt".to_owned() {
        Some(Layout::of("0x80100000", "0x0100000", "0x8020a000", "0xf6000"))
    } else if *name == "raspberry_pi_pico".to_owned() {
        Some(Layout::of("0x10040000", "256K", "0x20012000", "192K"))
    } else if *name == "stm32f3discovery".to_owned() {
        Some(Layout::of("0x08020000", "0x0020000", "0x20004000", "48K"))
    } else if *name == "stm32f412gdiscovery".to_owned() {
        Some(Layout::of("0x08030000", "256K", "0x20004000", "112K"))
    } else if *name == "nano33ble".to_owned() {
        Some(Layout::of("0x00050000", "704K", "0x20005000", "240K"))
    } else {
        None
    }
}

/// The string given, or a default.
fn or_default(v: Option<String>, default: &str) -> (r: String)
    ensures
        r@ == (match v {
            Some(s) => s@,
            None => default@,
        }),
{
    match v {
        Some(s) => s,
        None => default.to_owned(),
    }
}

/// Chooses the layout from what the build was given: either a known
/// platform's name alone, or the flash and RAM start addresses alone, whose
/// lengths then default to `0xD0000` and `46K`.
pub fn select_layout(
    platform: Option<String>,
    flash_start: Option<String>,
    flash_len: Option<String>,
    ram_start: Option<String>,
    ram_len: Option<String>,
) -> (r: Result<Layout, LayoutError>)
    ensures
        match (platform, flash_start, ram_start) {
            (None, Some(fs), Some(rs)) => r matches Ok(l) && l.parts() == (
                fs@,
                match flash_len { Some(s) => s@, None => "0xD0000"@ },
                rs@,
                match ram_len { Some(s) => s@, None => "46K"@ },
            ),
            (Some(p), None, None) => match spec_platform(p@) {
                Some(parts) => r matches Ok(l) && l.parts() == parts,
                None => r matches Err(LayoutError::UnknownPlatform(n)) && n@ == p@,
            },
            _ => r matches Err(LayoutError::Unspecified),
        },
{
    match (platform, flash_start, ram_start) {
        (None, Some(fs), Some(rs)) => Ok(Layout {
            flash_start: fs,
            flash_len: or_default(flash_len, "0xD0000"),
            ram_start: rs,
            ram_len: or_default(ram_len, "46K"),
        }),
        (Some(p), None, None) => match platform_layout(&p) {
            Some(l) => Ok(l),
            None => Err(LayoutError::UnknownPlatform(p)),
        },
        _ => Err(LayoutError::Unspecified),
    }
}

/// The size of the TBF header: the value given, or `0x80`.
pub fn tbf_header_size(value: Option<String>) -> (r: String)
    ensures
        r@ == (match value {
            Some(s) => s@,
            None => "0x80"@,
        }),
{
    or_default(value, "0x80")
}

/// The name of the generated linker script: the four numbers, each followed
/// by a dot, then `ld`.
pub fn layout_file_name(l: &Layout) -> (r: String)
    ensures
        r@ == l.flash_start@ + "."@ + l.flash_len@ + "."@ + l.ram_start@ + "."@ + l.ram_len@ + ".ld"@,
{
    let mut r = l.flash_start.clone();
    r.append(".");
    r.append(l.flash_len.as_str());
    r.append(".");
    r.append(l.ram_start.as_str());
    r.append(".");
    r.append(l.ram_len.as_str());
    r.append(".ld");
    r
}

/// The generated linker script: it sets the header size and the four
/// numbers, then includes the common layout.
pub fn layout_script(tbf_header_size: &str, l: &Layout) -> (r: String)
    ensures
        r@ == "TBF_HEADER_SIZE = "@ + tbf_header_size@ + ";\nFLASH_START = "@ + l.flash_start@
            + ";\nFLASH_LENGTH = "@ + l.flash_len@ + ";\nRAM_START = "@ + l.ram_start@
            + ";\nRAM_LENGTH = "@ + l.ram_len@ + ";\nINCLUDE "@ + LIBTOCK_LAYOUT_NAME@ + ";\n"@,
{
    let mut r = "TBF_HEADER_SIZE = ".to_owned();
    r.append(tbf_header_size);
    r.append(";\nFLASH_START = ");
    r.append(l.flash_start.as_str());
    r.append(";\nFLASH_LENGTH = ");
    r.append(l.flash_len.as_str());
    r.append(";\nRAM_START = ");
    r.append(l.ram_start.as_str());
    r.append(";\nRAM_LENGTH = ");
    r.append(l.ram_len.as_str());
    r.append(";\nINCLUDE ");
    r.append(LIBTOCK_LAYOUT_NAME);
    r.append(";\n");
    r
}

} // verus!
