use esp_swd_probe::registers::ap::memap::{Base, Drw, Tar, BD0, BD3, CSW};
use esp_swd_probe::registers::ap::{APClass, APRegister, APType, Idr};
use esp_swd_probe::registers::dp::{DPRegister, Idcode, RdBuff, Select};

#[test]
fn idr_is_mem_ap_follows_class_field() {
    let ahb = Idr(0x2477_0011);
    assert_eq!(ahb.class(), APClass::MemAp);
    assert!(ahb.is_mem_ap());
    assert_eq!(ahb.ap_type(), APType::AHB);
    assert_eq!(ahb.revision(), 2);
    assert_eq!(ahb.designer(), 0x23B);
    assert_eq!(ahb.variant(), 1);
    for raw in [0u32, 0x0000_2000, 0x0001_E000, 0xFFFF_FFFF, 0x0000_0001] {
        let idr = Idr(raw);
        assert_eq!(idr.is_mem_ap(), ((raw >> 13) & 0xf) == 0b1000);
    }
    assert!(Idr(0x0001_0000).is_mem_ap());
    assert!(!Idr(0x0001_2000).is_mem_ap());
    assert_eq!(Idr(0x0000_2000).class(), APClass::ComAP);
    assert_eq!(Idr(0x0000_6000).class(), APClass::Unknown(3));
}

#[test]
fn idr_jtag_connection() {
    assert!(Idr(0x0000_0010).is_jtag_connection());
    assert!(!Idr(0x0000_0000).is_jtag_connection());
    assert!(!Idr(0x0000_0011).is_jtag_connection());
    assert_eq!(Idr(0x0000_0002).ap_type(), APType::APB);
    assert_eq!(Idr(0x0000_0007).ap_type(), APType::Unknown(7));
}

#[test]
fn base_address_masks_low_bits() {
    assert_eq!(Base(0xE00F_F003).address(), 0xE00F_F000);
    assert_eq!(Base(0xE00F_F002).address(), 0xE00F_F000);
    assert!(Base(0xE00F_F003).present());
    assert!(!Base(0xE00F_F002).present());
    assert_eq!(Base(0x0000_0FFF).address(), 0);
    assert_eq!(Base(0xFFFF_FFFF).address(), 0xFFFF_F000);
}

#[test]
fn idcode_fields() {
    let id = Idcode(0x2BA0_1477);
    assert_eq!(id.version(), 0x2);
    assert_eq!(id.partno(), 0xBA01);
    assert_eq!(id.designer(), 0x23B);
    assert!(id.present());
}

#[test]
fn register_addresses() {
    assert_eq!(Idcode::a(), [false, false]);
    assert_eq!(Select::a(), [false, true]);
    assert_eq!(RdBuff::a(), [true, true]);
    assert_eq!(Idr::address(), 0xfc);
    assert_eq!(<Base as APRegister>::address(), 0xf8);
    assert_eq!(<CSW as APRegister>::address(), 0x00);
    assert_eq!(<Tar as APRegister>::address(), 0x04);
    assert_eq!(Drw::address(), 0x0c);
    assert_eq!(BD0::address(), 0x10);
    assert_eq!(BD3::address(), 0x1c);
}

#[test]
fn csw_fields_round_trip() {
    let csw = CSW::default()
        .set_size(2)
        .set_addrinc(1)
        .set_dbgswenable(true)
        .set_prot(0x23)
        .set_mode(0)
        .set_access_type(0);
    assert_eq!(csw.0, 0xA300_0012);
    assert_eq!(csw.size(), 2);
    assert_eq!(csw.addrinc(), 1);
    assert!(csw.dbgswenable());
    assert_eq!(csw.prot(), 0x23);
    assert!(!csw.deviceen());
    let wide = CSW(0).set_size(0xff);
    assert_eq!(wide.0, 7);
    assert!(CSW(0x40).deviceen());
    assert!(CSW(0x80).trinprog());
    assert!(CSW(0x0080_0000).spiden());
    assert!(CSW(0x8000).mte());
    assert_eq!(CSW(0x0000_0F00).mode(), 0xf);
    assert_eq!(CSW(0x0000_7000).access_type(), 7);
}

#[test]
fn word_registers_hold_their_value() {
    assert_eq!(Tar::default().set_address(0x2000_0000).address(), 0x2000_0000);
    assert_eq!(Drw(5).set_data(9).data(), 9);
    assert_eq!(BD0(1).data(), 1);
}

#[test]
fn select_setters_keep_other_fields() {
    let s = Select(0).set_ctrlsel(true).set_apsel(0xAB).set_apbanksel(3);
    assert_eq!(s.0, 0xAB00_0031);
    assert!(s.ctrlsel());
    let s = s.set_ctrlsel(false);
    assert_eq!(s.0, 0xAB00_0030);
}
