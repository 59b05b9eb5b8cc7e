# k3-drivers

Drivers for the peripherals of the SpacemiT K3: the Ethernet controller, the
pin controller, the SD host controller, the UART, the UFS host controller, the
USB host controller with its PHYs, and the two RISC-V interrupt controllers.

`src/` is a library without hardware access, verified with Verus. A driver
operation returns a *script*: the register accesses, delays and polls that
carry it out. Where a driver must decide on what the hardware answers, it is a
state machine that yields one script per step and takes the answer. The
contracts say which accesses a script holds and what the driver knows
afterwards; `script::run` says what a script does on the bus.

- `script`: scripts, their meaning, and the runner that performs them
- `fdt`: device-tree properties
- `aplic`, `imsic`: interrupt controllers
- `gmac`: Ethernet controller, its glue logic, PHY management and rings
- `pinctrl`: pin functions and electrical settings
- `sdhci`: SD host controller extensions, tuning and card bring-up
- `uart`: serial port
- `ufs`: UFS link, transfers, SCSI commands and the search for the data unit
- `usb`: host controller bring-up, interface matching, frame capture
- `block`: a blocking driver as a queued block device

Public proof functions whose names start with `law_` state what holds across
functions.

`app/` maps registers, owns DMA memory and connects the drivers to the kernel's
device interfaces. `tests/` holds the tests of the library.
