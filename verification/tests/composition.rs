use axi_dma_cat::axi_lite::sim::golden::RegisterFile;
use axi_dma_cat::axi_lite::transaction::{AxiLiteReadRequest, AxiLiteWriteRequest};
use axi_dma_cat::composition::axi_channel_tensor::{
    axi_braid, axi_write_tensor, axi_write_then_read,
};
use axi_dma_cat::composition::dma_pipeline::dma_pipeline;
use axi_dma_cat::dma::register::{TransferLength, REG_CONTROL, REG_DEST, REG_LENGTH, REG_SOURCE};
use axi_dma_cat::dma::sim::golden::MemoryModel;
use axi_dma_cat::error::Error;
use axi_dma_cat::primitives::address::AxiAddress;

#[test]
fn tensor_writes_are_independent() -> Result<(), Error> {
    let rf = RegisterFile::new();
    let wr_a = AxiLiteWriteRequest::write32(AxiAddress::new(0x00), 0xAA);
    let wr_b = AxiLiteWriteRequest::write32(AxiAddress::new(0x04), 0xBB);

    let (rf, res_a, res_b) = axi_write_tensor(rf, wr_a, wr_b)?;
    assert!(res_a.resp().is_okay());
    assert!(res_b.resp().is_okay());
    assert_eq!(rf.get(0x00), 0xAA);
    assert_eq!(rf.get(0x04), 0xBB);
    Ok(())
}

#[test]
fn write_then_read_observes_new_value() -> Result<(), Error> {
    let rf = RegisterFile::new();
    let write = AxiLiteWriteRequest::write32(AxiAddress::new(0x10), 0xDEAD);
    let read = AxiLiteReadRequest::read(AxiAddress::new(0x10));

    let (_rf, wr, rd) = axi_write_then_read(rf, write, read)?;
    assert!(wr.resp().is_okay());
    assert!(rd.resp().is_okay());
    assert_eq!(rd.data(), 0xDEAD);
    Ok(())
}

#[test]
fn braid_is_involution() {
    let pair = (1_u32, 2_u32);
    assert_eq!(axi_braid(axi_braid(pair)), pair);
}

#[test]
fn tensor_order_does_not_matter() -> Result<(), Error> {
    let a = AxiLiteWriteRequest::write32(AxiAddress::new(0x08), 1);
    let b = AxiLiteWriteRequest::write32(AxiAddress::new(0x0C), 2);
    let (rf1, ra1, rb1) = axi_write_tensor(RegisterFile::new(), a, b)?;
    let (rf2, rb2, ra2) = axi_write_tensor(RegisterFile::new(), b, a)?;
    assert_eq!((ra1.resp(), rb1.resp()), (ra2.resp(), rb2.resp()));
    assert_eq!(rf1.get(0x08), rf2.get(0x08));
    assert_eq!(rf1.get(0x0C), rf2.get(0x0C));
    assert_eq!(rf1.get(0x0C), 2);
    assert_eq!(axi_braid(("x", 3)), (3, "x"));
    Ok(())
}

#[test]
fn tensor_rejects_write_outside_window() {
    let a = AxiLiteWriteRequest::write32(AxiAddress::new(0x08), 1);
    let b = AxiLiteWriteRequest::write32(AxiAddress::new(0x2000), 2);
    match axi_write_tensor(RegisterFile::new(), a, b) {
        Err(Error::AxiLite(msg)) => assert_eq!(msg, "write not acknowledged with OKAY"),
        _ => panic!("expected an AXI-Lite error"),
    }
    match axi_write_tensor(RegisterFile::new(), b, a) {
        Err(Error::AxiLite(msg)) => assert_eq!(msg, "write not acknowledged with OKAY"),
        _ => panic!("expected an AXI-Lite error"),
    }
}

#[test]
fn write_then_read_rejects_address_outside_window() {
    let write_out = AxiLiteWriteRequest::write32(AxiAddress::new(0x2000), 7);
    let read_in = AxiLiteReadRequest::read(AxiAddress::new(0x10));
    match axi_write_then_read(RegisterFile::new(), write_out, read_in) {
        Err(Error::AxiLite(msg)) => assert_eq!(msg, "write not acknowledged with OKAY"),
        _ => panic!("expected an AXI-Lite error"),
    }
    let write_in = AxiLiteWriteRequest::write32(AxiAddress::new(0x10), 7);
    let read_out = AxiLiteReadRequest::read(AxiAddress::new(0x2000));
    match axi_write_then_read(RegisterFile::new(), write_in, read_out) {
        Err(Error::AxiLite(msg)) => assert_eq!(msg, "read not acknowledged with OKAY"),
        _ => panic!("expected an AXI-Lite error"),
    }
}

#[test]
fn full_pipeline_transfers_data() -> Result<(), Error> {
    let rf = RegisterFile::new();
    let mem = MemoryModel::new().write_block(AxiAddress::new(0x1000), &[0xCA, 0xFE, 0xBA, 0xBE]);

    let result = dma_pipeline(
        rf,
        mem,
        AxiAddress::new(0x1000),
        AxiAddress::new(0x2000),
        TransferLength::new(4),
    )?;

    assert!(result.transfer_result().status().done());
    assert_eq!(
        result.memory().read_block(AxiAddress::new(0x2000), 4),
        vec![0xCA, 0xFE, 0xBA, 0xBE],
    );
    Ok(())
}

#[test]
fn pipeline_zero_length_is_noop() -> Result<(), Error> {
    let rf = RegisterFile::new();
    let mem = MemoryModel::new();

    let result = dma_pipeline(
        rf,
        mem,
        AxiAddress::new(0x1000),
        AxiAddress::new(0x2000),
        TransferLength::new(0),
    )?;

    assert!(result.transfer_result().status().done());
    assert_eq!(result.transfer_result().bytes_transferred(), 0);
    Ok(())
}

#[test]
fn pipeline_leaves_configuration_in_registers() -> Result<(), Error> {
    let result = dma_pipeline(
        RegisterFile::new(),
        MemoryModel::new(),
        AxiAddress::new(0x1234),
        AxiAddress::new(0x5678),
        TransferLength::new(9),
    )?;
    let rf = result.reg_file();
    assert_eq!(rf.get(REG_SOURCE), 0x1234);
    assert_eq!(rf.get(REG_DEST), 0x5678);
    assert_eq!(rf.get(REG_LENGTH), 9);
    assert_eq!(rf.get(REG_CONTROL), 1);
    assert_eq!(result.transfer_result().bytes_transferred(), 9);
    Ok(())
}

#[test]
fn pipeline_outside_window_is_rejected() {
    let rf = RegisterFile::with_range(AxiAddress::new(0x4000), 0x100);
    let mem = MemoryModel::new().write_block(AxiAddress::new(0x1000), &[5, 6]);
    let result = dma_pipeline(
        rf,
        mem,
        AxiAddress::new(0x1000),
        AxiAddress::new(0x2000),
        TransferLength::new(2),
    );
    match result {
        Err(Error::AxiLite(msg)) => assert_eq!(msg, "write not acknowledged with OKAY"),
        _ => panic!("expected an AXI-Lite error"),
    }
}

#[test]
fn pipeline_window_missing_length_register_is_rejected() {
    let rf = RegisterFile::with_range(AxiAddress::new(0), 0x10);
    let result = dma_pipeline(
        rf,
        MemoryModel::new(),
        AxiAddress::new(0x1000),
        AxiAddress::new(0x2000),
        TransferLength::new(4),
    );
    assert!(matches!(result, Err(Error::AxiLite(_))));
}
