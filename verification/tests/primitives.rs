use axi_dma_cat::error::Error;
use axi_dma_cat::primitives::address::AxiAddress;
use axi_dma_cat::primitives::protection::AxiProt;
use axi_dma_cat::primitives::response::AxiResponse;
use axi_dma_cat::primitives::strobe::WriteStrobe;

#[test]
fn alignment_check() {
    let addr = AxiAddress::new(0x100);
    assert!(addr.is_aligned(4));
    assert!(addr.is_aligned(256));
    assert!(!addr.is_aligned(512));
}

#[test]
fn offset_wraps_error() {
    let addr = AxiAddress::new(u32::MAX);
    assert!(addr.offset(1).is_err());
}

#[test]
fn offset_success() -> Result<(), Error> {
    let addr = AxiAddress::new(0x1000);
    let next = addr.offset(4)?;
    assert_eq!(next.value(), 0x1004);
    Ok(())
}

#[test]
fn zero_alignment_always_holds() {
    assert!(AxiAddress::new(0x123).is_aligned(0));
    assert!(!AxiAddress::new(0x123).is_aligned(2));
    assert!(AxiAddress::new(0x123).is_aligned(1));
}

#[test]
fn offset_error_carries_base_address() {
    match AxiAddress::new(0xFFFF_FFF0).offset(0x20) {
        Err(Error::InvalidAddress { addr }) => assert_eq!(addr, 0xFFFF_FFF0),
        other => panic!("unexpected {:?}", other),
    }
    assert_eq!(AxiAddress::new(0xFFFF_FFF0).offset(0x0F).map(|a| a.value()).ok(), Some(u32::MAX));
    assert_eq!(AxiAddress::zero().value(), 0);
}

#[test]
fn default_is_unprivileged_secure_data() {
    let p = AxiProt::default_prot();
    assert!(!p.privileged());
    assert!(!p.non_secure());
    assert!(!p.instruction());
}

#[test]
fn privileged_bit() {
    assert!(AxiProt::new(0b001).privileged());
}

#[test]
fn masks_to_3_bits() {
    assert_eq!(AxiProt::new(0xFF).value(), 0b111);
}

#[test]
fn protection_bits_are_independent() {
    let p = AxiProt::new(0b110);
    assert!(!p.privileged());
    assert!(p.non_secure());
    assert!(p.instruction());
    assert_eq!(AxiProt::new(0b1010).value(), 0b010);
}

#[test]
fn round_trip_all_valid_codes() -> Result<(), Error> {
    [AxiResponse::Okay, AxiResponse::SlvErr, AxiResponse::DecErr]
        .iter()
        .try_for_each(|resp| {
            let decoded = AxiResponse::from_bits(resp.to_bits())?;
            if decoded == *resp {
                Ok(())
            } else {
                Err(Error::InvalidResponse { code: resp.to_bits() })
            }
        })
}

#[test]
fn reserved_code_is_error() {
    assert!(AxiResponse::from_bits(0b01).is_err());
}

#[test]
fn okay_is_okay() {
    assert!(AxiResponse::Okay.is_okay());
    assert!(!AxiResponse::SlvErr.is_okay());
}

#[test]
fn response_decoding_uses_low_two_bits() {
    assert_eq!(AxiResponse::from_bits(0b110).ok(), Some(AxiResponse::SlvErr));
    assert_eq!(AxiResponse::from_bits(0xFF).ok(), Some(AxiResponse::DecErr));
    assert_eq!(AxiResponse::from_bits(0x04).ok(), Some(AxiResponse::Okay));
    match AxiResponse::from_bits(0x05) {
        Err(Error::InvalidResponse { code }) => assert_eq!(code, 1),
        other => panic!("unexpected {:?}", other),
    }
    assert_eq!(AxiResponse::SlvErr.to_bits(), 0b10);
    assert_eq!(AxiResponse::DecErr.to_bits(), 0b11);
    assert_eq!(AxiResponse::Okay.to_bits(), 0b00);
}

#[test]
fn response_code_round_trip_every_code() {
    for code in 0u8..=255 {
        match AxiResponse::from_bits(code) {
            Ok(resp) => assert_eq!(resp.to_bits(), code & 0b11),
            Err(_) => assert_eq!(code & 0b11, 0b01),
        }
    }
}

#[test]
fn all_32_is_full_for_4_bytes() {
    assert!(WriteStrobe::all_32().is_full(4));
    assert!(!WriteStrobe::all_32().is_full(8));
}

#[test]
fn all_64_is_full_for_8_bytes() {
    assert!(WriteStrobe::all_64().is_full(8));
}

#[test]
fn partial_strobe_not_full() {
    assert!(!WriteStrobe::new(0x03).is_full(4));
}

#[test]
fn strobe_fullness_edge_widths() {
    assert!(WriteStrobe::new(0).is_full(0));
    assert!(WriteStrobe::new(1).is_full(1));
    assert!(!WriteStrobe::new(0xFF).is_full(9));
    assert!(!WriteStrobe::new(0xFF).is_full(15));
    assert_eq!(WriteStrobe::new(0x5A).mask(), 0x5A);
}
