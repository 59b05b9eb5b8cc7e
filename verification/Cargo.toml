[package]
name = "k3-drivers"
version = "0.1.0"
edition = "2021"
publish = false

[dependencies]
ax-kspin = "*"
ax-sync = "*"
axklib = "*"
bitflags = "*"
crab-usb = "*"
dma-api = "*"
fdt-edit = "*"
log = "*"
mmio-api = "*"
rd-net = "*"
rdif-block = "*"
rdif-pinctrl = "*"
rdif-serial = "*"
rdrive = "*"
sdmmc-protocol = "*"
thiserror = "*"
usb-serial = "*"
