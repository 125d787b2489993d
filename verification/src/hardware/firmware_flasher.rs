//! Firmware flashing assistance: the flash command, step-by-step
//! instructions, troubleshooting tips, bootloader setup and tool
//! recommendations for a target device.

use vstd::prelude::*;
use vstd::string::StringExecFns;
use crate::textutil::{ascii_lower, spec_ascii_lower, spec_decimal, str_eq, string_views, u64_to_string};

verus! {

/// What the flasher is asked to do.
#[derive(Clone, Debug, PartialEq)]
pub struct FirmwareFlasherInput {
    /// Target device/board.
    pub device: String,
    /// Firmware file path or type.
    pub firmware: String,
    /// Connection method (serial, jtag, swd, dfu, ...).
    pub connection: String,
    /// Action (flash, verify, erase, backup).
    pub action: String,
    /// Additional options.
    pub options: Option<FlashOptions>,
}

#[derive(Clone, Debug, PartialEq)]
pub struct FlashOptions {
    /// Port/interface (e.g. a serial device path).
    pub port: Option<String>,
    /// Baud rate for serial flashing.
    pub baud_rate: Option<u32>,
    /// Memory address to flash to.
    pub address: Option<String>,
    /// Bootloader mode.
    pub bootloader: Option<String>,
    /// Verify after flash.
    pub verify: bool,
}

#[derive(Clone, Debug, PartialEq)]
pub struct FirmwareFlasherOutput {
    /// Flash command to execute.
    pub command: String,
    /// Step-by-step instructions.
    pub instructions: Vec<String>,
    /// Troubleshooting tips.
    pub troubleshooting: Vec<TroubleshootingTip>,
    /// Bootloader setup if needed.
    pub bootloader_setup: Option<BootloaderSetup>,
    /// Tool recommendations.
    pub tools_needed: Vec<FlashTool>,
}

#[derive(Clone, Debug, PartialEq)]
pub struct TroubleshootingTip {
    pub issue: String,
    pub solution: String,
    pub command: Option<String>,
}

#[derive(Clone, Debug, PartialEq)]
pub struct BootloaderSetup {
    pub method: String,
    pub steps: Vec<String>,
    pub timing: Option<String>,
}

#[derive(Clone, Debug, PartialEq)]
pub struct FlashTool {
    pub name: String,
    pub purpose: String,
    pub download_url: String,
    pub platform_support: Vec<String>,
}

/// The helper that assembles everything.
pub struct FirmwareFlasher;

/// The port the command uses: the one given, or the first USB serial device.
pub open spec fn spec_port_of(input: FirmwareFlasherInput) -> Seq<char> {
    match input.options {
        Some(o) => match o.port {
            Some(p) => p@,
            None => "/dev/ttyUSB0"@,
        },
        None => "/dev/ttyUSB0"@,
    }
}

/// The baud rate the command uses: the one given, or 115200.
pub open spec fn spec_baud_of(input: FirmwareFlasherInput) -> u32 {
    match input.options {
        Some(o) => match o.baud_rate {
            Some(b) => b,
            None => 115200u32,
        },
        None => 115200u32,
    }
}

/// The flash command for the device, connection and action asked for.
pub open spec fn spec_flash_command(input: FirmwareFlasherInput) -> Seq<char> {
    let device = spec_ascii_lower(input.device@);
    let port = spec_port_of(input);
    let baud = spec_decimal(spec_baud_of(input) as nat);
    if device == "esp32"@ || device == "esp8266"@ {
        if input.action@ == "flash"@ {
            "esptool.py --chip "@ + device + " --port "@ + port + " --baud "@ + baud
                + " write_flash -z 0x1000 "@ + input.firmware@
        } else if input.action@ == "erase"@ {
            "esptool.py --chip "@ + device + " --port "@ + port + " erase_flash"@
        } else {
            "esptool.py --help"@
        }
    } else if device == "stm32"@ {
        if input.connection@ == "serial"@ {
            "stm32flash -w "@ + input.firmware@ + " -v -g 0x0 "@ + port
        } else if input.connection@ == "swd"@ || input.connection@ == "jtag"@ {
            "openocd -f interface/stlink.cfg -f target/stm32f1x.cfg -c \"program "@
                + input.firmware@ + " verify reset exit\""@
        } else if input.connection@ == "dfu"@ {
            "dfu-util -a 0 -s 0x08000000:leave -D "@ + input.firmware@
        } else {
            "st-flash write firmware.bin 0x8000000"@
        }
    } else if device == "arduino"@ || device == "atmega328"@ {
        "avrdude -c arduino -p m328p -P "@ + port + " -b "@ + baud + " -U flash:w:"@
            + input.firmware@ + ":i"@
    } else if device == "rp2040"@ || device == "raspberry-pi-pico"@ {
        "picotool load "@ + input.firmware@ + " -f"@
    } else if device == "nrf52"@ {
        "nrfjprog --program "@ + input.firmware@ + " --sectorerase --verify --reset"@
    } else {
        "# Generic flash command for "@ + input.device@ + "\n# Adjust parameters as needed"@
    }
}

/// Build the flash command to execute.
pub fn generate_flash_command(input: &FirmwareFlasherInput) -> (r: String)
    ensures
        r@ == spec_flash_command(*input),
{
    let device = ascii_lower(input.device.as_str());
    let port: &str = match &input.options {
        Some(o) => match &o.port {
            Some(p) => p.as_str(),
            None => "/dev/ttyUSB0",
        },
        None => "/dev/ttyUSB0",
    };
    let baud: u32 = match &input.options {
        Some(o) => match o.baud_rate {
            Some(b) => b,
            None => 115200,
        },
        None => 115200,
    };
    let baud_s = u64_to_string(baud as u64);
    let mut out: String;
    if str_eq(device.as_str(), "esp32") || str_eq(device.as_str(), "esp8266") {
        if str_eq(input.action.as_str(), "flash") {
            out = "esptool.py --chip ".to_owned();
            out.append(device.as_str());
            out.append(" --port ");
            out.append(port);
            out.append(" --baud ");
            out.append(baud_s.as_str());
            out.append(" write_flash -z 0x1000 ");
            out.append(input.firmware.as_str());
        } else if str_eq(input.action.as_str(), "erase") {
            out = "esptool.py --chip ".to_owned();
            out.append(device.as_str());
            out.append(" --port ");
            out.append(port);
            out.append(" erase_flash");
        } else {
            out = "esptool.py --help".to_owned();
        }
    } else if str_eq(device.as_str(), "stm32") {
        if str_eq(input.connection.as_str(), "serial") {
            out = "stm32flash -w ".to_owned();
            out.append(input.firmware.as_str());
            out.append(" -v -g 0x0 ");
            out.append(port);
        } else if str_eq(input.connection.as_str(), "swd") || str_eq(
            input.connection.as_str(),
            "jtag",
        ) {
            out = "openocd -f interface/stlink.cfg -f target/stm32f1x.cfg -c \"program "
                .to_owned();
            out.append(input.firmware.as_str());
            out.append(" verify reset exit\"");
        } else if str_eq(input.connection.as_str(), "dfu") {
            out = "dfu-util -a 0 -s 0x08000000:leave -D ".to_owned();
            out.append(input.firmware.as_str());
        } else {
            out = "st-flash write firmware.bin 0x8000000".to_owned();
        }
    } else if str_eq(device.as_str(), "arduino") || str_eq(device.as_str(), "atmega328") {
        out = "avrdude -c arduino -p m328p -P ".to_owned();
        out.append(port);
        out.append(" -b ");
        out.append(baud_s.as_str());
        out.append(" -U flash:w:");
        out.append(input.firmware.as_str());
        out.append(":i");
    } else if str_eq(device.as_str(), "rp2040") || str_eq(device.as_str(), "raspberry-pi-pico") {
        out = "picotool load ".to_owned();
        out.append(input.firmware.as_str());
        out.append(" -f");
    } else if str_eq(device.as_str(), "nrf52") {
        out = "nrfjprog --program ".to_owned();
        out.append(input.firmware.as_str());
        out.append(" --sectorerase --verify --reset");
    } else {
        out = "# Generic flash command for ".to_owned();
        out.append(input.device.as_str());
        out.append("\n# Adjust parameters as needed");
    }
    out
}

/// The instruction lines for the device and connection asked for.
pub open spec fn spec_instructions(input: FirmwareFlasherInput) -> Seq<Seq<char>> {
    let device = spec_ascii_lower(input.device@);
    if device == "esp32"@ {
        seq![
            "1. Install esptool: pip install esptool"@,
            "2. Connect ESP32 via USB"@,
            "3. Hold BOOT button while connecting (if needed)"@,
            "4. Identify port: ls /dev/tty* (Linux/Mac) or Device Manager (Windows)"@,
            "5. Run the flash command"@,
            "6. Press RESET button after flashing"@,
        ]
    } else if device == "stm32"@ {
        if input.connection@ == "serial"@ {
            seq![
                "1. Install stm32flash: apt-get install stm32flash"@,
                "2. Set BOOT0 pin HIGH (move jumper)"@,
                "3. Reset the device"@,
                "4. Run the flash command"@,
                "5. Set BOOT0 pin LOW"@,
                "6. Reset to run new firmware"@,
            ]
        } else if input.connection@ == "swd"@ || input.connection@ == "jtag"@ {
            seq![
                "1. Install OpenOCD: apt-get install openocd"@,
                "2. Connect ST-Link or J-Link programmer"@,
                "3. Power the target board"@,
                "4. Run the flash command"@,
            ]
        } else if input.connection@ == "dfu"@ {
            seq![
                "1. Install dfu-util: apt-get install dfu-util"@,
                "2. Put device in DFU mode (BOOT0=1, Reset)"@,
                "3. Verify device detected: dfu-util -l"@,
                "4. Run the flash command"@,
            ]
        } else {
            Seq::empty()
        }
    } else if device == "arduino"@ {
        seq![
            "1. Install Arduino IDE or avrdude"@,
            "2. Connect Arduino via USB"@,
            "3. Select correct board and port"@,
            "4. Compile sketch to .hex file"@,
            "5. Run avrdude command"@,
        ]
    } else {
        seq![
            "1. Install appropriate flashing tool"@,
            "2. Connect device to computer"@,
            "3. Put device in programming mode"@,
            "4. Run flash command"@,
            "5. Reset device to run firmware"@,
        ]
    }
}

/// Build the step-by-step instructions.
pub fn generate_instructions(input: &FirmwareFlasherInput) -> (r: Vec<String>)
    ensures
        string_views(r@) == spec_instructions(*input),
{
    let device = ascii_lower(input.device.as_str());
    let mut out: Vec<String> = Vec::new();
    if str_eq(device.as_str(), "esp32") {
        out.push("1. Install esptool: pip install esptool".to_owned());
        out.push("2. Connect ESP32 via USB".to_owned());
        out.push("3. Hold BOOT button while connecting (if needed)".to_owned());
        out.push(
            "4. Identify port: ls /dev/tty* (Linux/Mac) or Device Manager (Windows)".to_owned(),
        );
        out.push("5. Run the flash command".to_owned());
        out.push("6. Press RESET button after flashing".to_owned());
    } else if str_eq(device.as_str(), "stm32") {
        if str_eq(input.connection.as_str(), "serial") {
            out.push("1. Install stm32flash: apt-get install stm32flash".to_owned());
            out.push("2. Set BOOT0 pin HIGH (move jumper)".to_owned());
            out.push("3. Reset the device".to_owned());
            out.push("4. Run the flash command".to_owned());
            out.push("5. Set BOOT0 pin LOW".to_owned());
            out.push("6. Reset to run new firmware".to_owned());
        } else if str_eq(input.connection.as_str(), "swd") || str_eq(
            input.connection.as_str(),
            "jtag",
        ) {
            out.push("1. Install OpenOCD: apt-get install openocd".to_owned());
            out.push("2. Connect ST-Link or J-Link programmer".to_owned());
            out.push("3. Power the target board".to_owned());
            out.push("4. Run the flash command".to_owned());
        } else if str_eq(input.connection.as_str(), "dfu") {
            out.push("1. Install dfu-util: apt-get install dfu-util".to_owned());
            out.push("2. Put device in DFU mode (BOOT0=1, Reset)".to_owned());
            out.push("3. Verify device detected: dfu-util -l".to_owned());
            out.push("4. Run the flash command".to_owned());
        }
    } else if str_eq(device.as_str(), "arduino") {
        out.push("1. Install Arduino IDE or avrdude".to_owned());
        out.push("2. Connect Arduino via USB".to_owned());
        out.push("3. Select correct board and port".to_owned());
        out.push("4. Compile sketch to .hex file".to_owned());
        out.push("5. Run avrdude command".to_owned());
    } else {
        out.push("1. Install appropriate flashing tool".to_owned());
        out.push("2. Connect device to computer".to_owned());
        out.push("3. Put device in programming mode".to_owned());
        out.push("4. Run flash command".to_owned());
        out.push("5. Reset device to run firmware".to_owned());
    }
    proof {
        assert(string_views(out@) =~= spec_instructions(*input));
    }
    out
}

/// The tips hold for every device: detection, permissions, timeouts and
/// verification failures, each with its check or remedy.
pub open spec fn spec_troubleshooting_correct(tips: Seq<TroubleshootingTip>) -> bool {
    &&& tips.len() == 4
    &&& tips[0].issue@ == "Device not detected"@
    &&& tips[0].solution@ == "Check USB cable, install drivers, verify port permissions"@
    &&& (tips[0].command matches Some(c) && c@ == "ls -l /dev/tty* | grep dialout"@)
    &&& tips[1].issue@ == "Permission denied on port"@
    &&& tips[1].solution@ == "Add user to dialout group"@
    &&& (tips[1].command matches Some(c) && c@ == "sudo usermod -a -G dialout $USER"@)
    &&& tips[2].issue@ == "Timeout during flash"@
    &&& tips[2].solution@ == "Check bootloader mode, try lower baud rate"@
    &&& tips[2].command is None
    &&& tips[3].issue@ == "Verification failed"@
    &&& tips[3].solution@ == "Erase flash first, check power supply stability"@
    &&& (tips[3].command matches Some(c) && c@ == "# Erase flash before writing"@)
}

/// Build the troubleshooting tips.
pub fn generate_troubleshooting(input: &FirmwareFlasherInput) -> (r: Vec<TroubleshootingTip>)
    ensures
        spec_troubleshooting_correct(r@),
{
    let _ = input;
    let mut out: Vec<TroubleshootingTip> = Vec::new();
    out.push(
        TroubleshootingTip {
            issue: "Device not detected".to_owned(),
            solution: "Check USB cable, install drivers, verify port permissions".to_owned(),
            command: Some("ls -l /dev/tty* | grep dialout".to_owned()),
        },
    );
    out.push(
        TroubleshootingTip {
            issue: "Permission denied on port".to_owned(),
            solution: "Add user to dialout group".to_owned(),
            command: Some("sudo usermod -a -G dialout $USER".to_owned()),
        },
    );
    out.push(
        TroubleshootingTip {
            issue: "Timeout during flash".to_owned(),
            solution: "Check bootloader mode, try lower baud rate".to_owned(),
            command: None,
        },
    );
    out.push(
        TroubleshootingTip {
            issue: "Verification failed".to_owned(),
            solution: "Erase flash first, check power supply stability".to_owned(),
            command: Some("# Erase flash before writing".to_owned()),
        },
    );
    out
}

/// Which bootloader setup a device needs: the known boards get theirs, the
/// rest none.
pub open spec fn spec_bootloader_correct(
    input: FirmwareFlasherInput,
    r: Option<BootloaderSetup>,
) -> bool {
    let device = spec_ascii_lower(input.device@);
    if device == "esp32"@ {
        r matches Some(b) && b.method@ == "UART Bootloader"@ && string_views(b.steps@) == seq![
            "Hold BOOT button (GPIO0 to GND)"@,
            "Press and release RESET"@,
            "Release BOOT after 1 second"@,
        ] && (b.timing matches Some(t) && t@ == "Hold BOOT for ~1 second after reset"@)
    } else if device == "stm32"@ {
        r matches Some(b) && b.method@ == "Built-in Bootloader"@ && string_views(b.steps@) == seq![
            "Set BOOT0 pin HIGH"@,
            "Set BOOT1 pin LOW (if present)"@,
            "Reset the microcontroller"@,
        ] && b.timing is None
    } else if device == "arduino"@ {
        r matches Some(b) && b.method@ == "Arduino Bootloader"@ && string_views(b.steps@) == seq![
            "Bootloader activates automatically on reset"@,
            "DTR signal triggers auto-reset"@,
        ] && (b.timing matches Some(t) && t@ == "Bootloader active for ~2 seconds after reset"@)
    } else {
        r is None
    }
}

/// Build the bootloader setup for the device, if one is known.
pub fn generate_bootloader_setup(input: &FirmwareFlasherInput) -> (r: Option<BootloaderSetup>)
    ensures
        spec_bootloader_correct(*input, r),
{
    let device = ascii_lower(input.device.as_str());
    if str_eq(device.as_str(), "esp32") {
        let mut steps: Vec<String> = Vec::new();
        steps.push("Hold BOOT button (GPIO0 to GND)".to_owned());
        steps.push("Press and release RESET".to_owned());
        steps.push("Release BOOT after 1 second".to_owned());
        proof {
            assert(string_views(steps@) =~= seq![
                "Hold BOOT button (GPIO0 to GND)"@,
                "Press and release RESET"@,
                "Release BOOT after 1 second"@,
            ]);
        }
        Some(
            BootloaderSetup {
                method: "UART Bootloader".to_owned(),
                steps,
                timing: Some("Hold BOOT for ~1 second after reset".to_owned()),
            },
        )
    } else if str_eq(device.as_str(), "stm32") {
        let mut steps: Vec<String> = Vec::new();
        steps.push("Set BOOT0 pin HIGH".to_owned());
        steps.push("Set BOOT1 pin LOW (if present)".to_owned());
        steps.push("Reset the microcontroller".to_owned());
        proof {
            assert(string_views(steps@) =~= seq![
                "Set BOOT0 pin HIGH"@,
                "Set BOOT1 pin LOW (if present)"@,
                "Reset the microcontroller"@,
            ]);
        }
        Some(
            BootloaderSetup {
                method: "Built-in Bootloader".to_owned(),
                steps,
                timing: None,
            },
        )
    } else if str_eq(device.as_str(), "arduino") {
        let mut steps: Vec<String> = Vec::new();
        steps.push("Bootloader activates automatically on reset".to_owned());
        steps.push("DTR signal triggers auto-reset".to_owned());
        proof {
            assert(string_views(steps@) =~= seq![
                "Bootloader activates automatically on reset"@,
                "DTR signal triggers auto-reset"@,
            ]);
        }
        Some(
            BootloaderSetup {
                method: "Arduino Bootloader".to_owned(),
                steps,
                timing: Some("Bootloader active for ~2 seconds after reset".to_owned()),
            },
        )
    } else {
        None
    }
}

/// Which tools fit a device: the vendor tools for the boards the library
/// knows, a placeholder entry otherwise.
pub open spec fn spec_tools_correct(input: FirmwareFlasherInput, tools: Seq<FlashTool>) -> bool {
    let device = spec_ascii_lower(input.device@);
    if device == "esp32"@ || device == "esp8266"@ {
        &&& tools.len() == 2
        &&& tools[0].name@ == "esptool"@
        &&& tools[0].purpose@ == "Official Espressif flashing tool"@
        &&& tools[0].download_url@ == "pip install esptool"@
        &&& string_views(tools[0].platform_support@) == seq!["Windows"@, "macOS"@, "Linux"@]
        &&& tools[1].name@ == "ESP Flash Download Tool"@
        &&& tools[1].purpose@ == "GUI tool for Windows"@
        &&& tools[1].download_url@
            == "https://www.espressif.com/en/support/download/other-tools"@
        &&& string_views(tools[1].platform_support@) == seq!["Windows"@]
    } else if device == "stm32"@ {
        &&& tools.len() == 2
        &&& tools[0].name@ == "STM32CubeProgrammer"@
        &&& tools[0].purpose@ == "Official ST programming tool"@
        &&& tools[0].download_url@
            == "https://www.st.com/en/development-tools/stm32cubeprog.html"@
        &&& string_views(tools[0].platform_support@) == seq!["Windows"@, "macOS"@, "Linux"@]
        &&& tools[1].name@ == "OpenOCD"@
        &&& tools[1].purpose@ == "Open source debugging and programming"@
        &&& tools[1].download_url@ == "apt-get install openocd"@
        &&& string_views(tools[1].platform_support@) == seq!["Linux"@, "macOS"@]
    } else {
        &&& tools.len() == 1
        &&& tools[0].name@ == "Platform-specific tool"@
        &&& tools[0].purpose@ == "Check manufacturer's website"@
        &&& tools[0].download_url@ == "Varies by platform"@
        &&& string_views(tools[0].platform_support@) == seq!["Varies"@]
    }
}

fn platforms_wml() -> (r: Vec<String>)
    ensures
        string_views(r@) == seq!["Windows"@, "macOS"@, "Linux"@],
{
    let mut v: Vec<String> = Vec::new();
    v.push("Windows".to_owned());
    v.push("macOS".to_owned());
    v.push("Linux".to_owned());
    proof {
        assert(string_views(v@) =~= seq!["Windows"@, "macOS"@, "Linux"@]);
    }
    v
}

/// Build the tool recommendations.
pub fn recommend_tools(input: &FirmwareFlasherInput) -> (r: Vec<FlashTool>)
    ensures
        spec_tools_correct(*input, r@),
{
    let device = ascii_lower(input.device.as_str());
    let mut tools: Vec<FlashTool> = Vec::new();
    if str_eq(device.as_str(), "esp32") || str_eq(device.as_str(), "esp8266") {
        tools.push(
            FlashTool {
                name: "esptool".to_owned(),
                purpose: "Official Espressif flashing tool".to_owned(),
                download_url: "pip install esptool".to_owned(),
                platform_support: platforms_wml(),
            },
        );
        let mut windows_only: Vec<String> = Vec::new();
        windows_only.push("Windows".to_owned());
        proof {
            assert(string_views(windows_only@) =~= seq!["Windows"@]);
        }
        tools.push(
            FlashTool {
                name: "ESP Flash Download Tool".to_owned(),
                purpose: "GUI tool for Windows".to_owned(),
                download_url: "https://www.espressif.com/en/support/download/other-tools"
                    .to_owned(),
                platform_support: windows_only,
            },
        );
    } else if str_eq(device.as_str(), "stm32") {
        tools.push(
            FlashTool {
                name: "STM32CubeProgrammer".to_owned(),
                purpose: "Official ST programming tool".to_owned(),
                download_url: "https://www.st.com/en/development-tools/stm32cubeprog.html"
                    .to_owned(),
                platform_support: platforms_wml(),
            },
        );
        let mut linux_mac: Vec<String> = Vec::new();
        linux_mac.push("Linux".to_owned());
        linux_mac.push("macOS".to_owned());
        proof {
            assert(string_views(linux_mac@) =~= seq!["Linux"@, "macOS"@]);
        }
        tools.push(
            FlashTool {
                name: "OpenOCD".to_owned(),
                purpose: "Open source debugging and programming".to_owned(),
                download_url: "apt-get install openocd".to_owned(),
                platform_support: linux_mac,
            },
        );
    } else {
        let mut varies: Vec<String> = Vec::new();
        varies.push("Varies".to_owned());
        proof {
            assert(string_views(varies@) =~= seq!["Varies"@]);
        }
        tools.push(
            FlashTool {
                name: "Platform-specific tool".to_owned(),
                purpose: "Check manufacturer's website".to_owned(),
                download_url: "Varies by platform".to_owned(),
                platform_support: varies,
            },
        );
    }
    tools
}

impl FirmwareFlasher {
    /// Assemble the full answer: command, instructions, tips, bootloader
    /// setup and tools for the given request.
    pub fn run(&self, input: FirmwareFlasherInput) -> (r: FirmwareFlasherOutput)
        ensures
            r.command@ == spec_flash_command(input),
            string_views(r.instructions@) == spec_instructions(input),
            spec_troubleshooting_correct(r.troubleshooting@),
            spec_bootloader_correct(input, r.bootloader_setup),
            spec_tools_correct(input, r.tools_needed@),
    {
        let command = generate_flash_command(&input);
        let instructions = generate_instructions(&input);
        let troubleshooting = generate_troubleshooting(&input);
        let bootloader_setup = generate_bootloader_setup(&input);
        let tools_needed = recommend_tools(&input);
        FirmwareFlasherOutput { command, instructions, troubleshooting, bootloader_setup, tools_needed }
    }
}

} // verus!
