use hal_mik32::spifi::{
    command_opcode, command_word, frame_for, parse_address, plan_transaction, Command, Config,
    Error, Operation, ReadTarget,
};

#[test]
fn single_writes_are_plain_commands() {
    assert_eq!(
        plan_transaction(&vec![Operation::Write(vec![0x06])]),
        Ok(Command::Plain { opcode: 0x06, address: None })
    );
    assert_eq!(
        plan_transaction(&vec![Operation::Write(vec![0x20, 0x01, 0x02, 0x03])]),
        Ok(Command::Plain { opcode: 0x20, address: Some(0x010203) })
    );
    assert_eq!(
        plan_transaction(&vec![Operation::Write(vec![0x20, 0x01])]),
        Err(Error::InvalidCommand)
    );
}

#[test]
fn in_place_transfers_read_after_the_opcode() {
    assert_eq!(
        plan_transaction(&vec![Operation::TransferInPlace(vec![0x9f, 0, 0, 0])]),
        Ok(Command::Read {
            opcode: 0x9f,
            address: None,
            len: 3,
            target: ReadTarget::InPlaceAfterOpcode,
        })
    );
    assert_eq!(
        plan_transaction(&vec![Operation::TransferInPlace(vec![])]),
        Err(Error::UnsupportedTransaction)
    );
}

#[test]
fn addressed_data_transfers() {
    let command = Operation::Write(vec![0x03, 0x00, 0x10, 0x00]);
    assert_eq!(
        plan_transaction(&vec![command.clone(), Operation::Read(256)]),
        Ok(Command::Read {
            opcode: 0x03,
            address: Some(0x1000),
            len: 256,
            target: ReadTarget::SecondOperation,
        })
    );
    assert_eq!(
        plan_transaction(&vec![command, Operation::Write(vec![1, 2, 3])]),
        Ok(Command::Write { opcode: 0x03, address: 0x1000, len: 3 })
    );
    assert_eq!(
        plan_transaction(&vec![Operation::Write(vec![0x03]), Operation::Read(1)]),
        Err(Error::InvalidCommand)
    );
    assert_eq!(
        plan_transaction(&vec![Operation::Write(vec![0x03]), Operation::Transfer]),
        Err(Error::UnsupportedTransaction)
    );
    assert_eq!(plan_transaction(&vec![Operation::DelayNs]), Err(Error::UnsupportedTransaction));
    assert_eq!(plan_transaction(&vec![]), Err(Error::UnsupportedTransaction));
}

#[test]
fn command_encoding() {
    assert_eq!(command_word(0x03, 4, 16, false), Ok(0x0380_0010));
    assert_eq!(command_word(0x02, 4, 1, true), Ok(0x0280_8001));
    assert_eq!(command_word(0x03, 4, 0x4000, false), Err(Error::TransferTooLong));
    assert_eq!(frame_for(None), (0, 1));
    assert_eq!(frame_for(Some(7)), (7, 4));
    assert_eq!(command_opcode(&[]), Err(Error::InvalidCommand));
    assert_eq!(command_opcode(&[5, 6]), Ok(5));
    assert_eq!(parse_address(&[0, 0xab, 0xcd, 0xef]), Ok(0xabcdef));
    assert_eq!(parse_address(&[0, 1]), Err(Error::InvalidCommand));
}

#[test]
fn config_fields_are_checked() {
    assert_eq!(Config::default().validate(), Ok(()));
    assert_eq!(Config { cs_high: 0x10, ..Config::default() }.validate(), Err(Error::InvalidCommand));
    assert_eq!(Config { sck_div: 8, ..Config::default() }.validate(), Err(Error::InvalidCommand));
}
