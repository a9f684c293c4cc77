use axi_dma_cat::dma::register::{DmaControl, DmaStatus, TransferLength};
use axi_dma_cat::error::Error;
use axi_dma_cat::path::GraphError;
use axi_dma_cat::primitives::address::AxiAddress;
use axi_dma_cat::primitives::protection::AxiProt;
use axi_dma_cat::primitives::response::AxiResponse;
use axi_dma_cat::primitives::strobe::WriteStrobe;

#[test]
fn address_text_matches_hex_format() {
    for v in [0u32, 1, 0x4000_0000, 0xDEAD_BEEF, u32::MAX, 0x0000_0AB0] {
        assert_eq!(AxiAddress::new(v).to_string(), format!("{:#010x}", v));
    }
    assert_eq!(AxiAddress::new(0x4000_0000).to_string(), "0x40000000");
}

#[test]
fn prot_and_strobe_text() {
    for v in 0u8..8 {
        assert_eq!(AxiProt::new(v).to_string(), format!("PROT({:#05b})", v));
    }
    assert_eq!(AxiProt::new(5).to_string(), "PROT(0b101)");
    for v in [0u8, 0x0F, 0xFF, 0x3] {
        assert_eq!(WriteStrobe::new(v).to_string(), format!("WSTRB({:#04x})", v));
    }
    assert_eq!(WriteStrobe::all_32().to_string(), "WSTRB(0x0f)");
}

#[test]
fn response_names() {
    assert_eq!(AxiResponse::Okay.to_string(), "OKAY");
    assert_eq!(AxiResponse::SlvErr.to_string(), "SLVERR");
    assert_eq!(AxiResponse::DecErr.to_string(), "DECERR");
}

#[test]
fn register_text() {
    assert_eq!(
        DmaControl::new(0x05).to_string(),
        "CTRL(start=true, stop=false, irq=true)"
    );
    assert_eq!(
        DmaStatus::done_status().to_string(),
        "STAT(busy=false, done=true, err=false, irq=false)"
    );
    assert_eq!(
        DmaStatus::new(0x0F).to_string(),
        "STAT(busy=true, done=true, err=true, irq=true)"
    );
    assert_eq!(TransferLength::new(1024).to_string(), "1024 bytes");
    assert_eq!(TransferLength::new(0).to_string(), "0 bytes");
    assert_eq!(TransferLength::new(u32::MAX).to_string(), format!("{} bytes", u32::MAX));
}

#[test]
fn error_text() {
    assert_eq!(Error::AxiLite("bad".to_string()).to_string(), "AXI-Lite error: bad");
    assert_eq!(Error::Dma("stall".to_string()).to_string(), "DMA error: stall");
    assert_eq!(Error::Simulation("x".to_string()).to_string(), "simulation error: x");
    assert_eq!(
        Error::InvalidAddress { addr: 0xFFFF_FFFF }.to_string(),
        "invalid address: 0xffffffff"
    );
    assert_eq!(
        Error::InvalidResponse { code: 1 }.to_string(),
        format!("invalid response code: {:#04x}", 1u8)
    );
    assert_eq!(
        Error::TransferError { source: 0x1000, dest: 0x2000 }.to_string(),
        "transfer error: src=0x00001000 dst=0x00002000"
    );
    assert_eq!(
        Error::Graph(GraphError::EdgeOutOfBounds { edge: 7, count: 5 }).to_string(),
        "graph error: edge index 7 out of bounds (count: 5)"
    );
    assert_eq!(
        GraphError::VertexOutOfBounds { vertex: 12, count: 7 }.to_string(),
        "vertex index 12 out of bounds (count: 7)"
    );
    assert_eq!(
        GraphError::CompositionMismatch { target: 1, source: 2 }.to_string(),
        "composition mismatch: target vertex 1 != source vertex 2"
    );
    let e: Error = GraphError::EdgeOutOfBounds { edge: 3, count: 2 }.into();
    assert!(matches!(e, Error::Graph(GraphError::EdgeOutOfBounds { edge: 3, count: 2 })));
}
