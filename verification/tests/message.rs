use osc_relay::message::{read_operation, write_operation, Message, MessageError};
use osc_relay::operation::Operation;
use osc_relay::text::same_text;
use osc_relay::wire::{arguments, integers, WireArg, WireMessage};

fn wire(addr: &str, args: Vec<WireArg>) -> WireMessage {
    WireMessage { addr: addr.to_owned(), args }
}

fn ints(addr: &str, values: &[i32]) -> WireMessage {
    wire(addr, values.iter().map(|n| WireArg::Int(*n)).collect())
}

fn every_command() -> Vec<Message> {
    vec![
        Message::InitZero(0, 1),
        Message::X(1, 2),
        Message::Y(3, 4),
        Message::Z(5, 6),
        Message::H(0, 0),
        Message::S(-1, 7),
        Message::Sdg(8, -9),
        Message::T(i32::MAX, i32::MIN),
        Message::Tdg(10, 11),
        Message::CX(0, 1, 2, 3),
        Message::Mz(12, 13),
    ]
}

#[test]
fn same_text_compares_characters() {
    assert!(same_text("/X", "/X"));
    assert!(same_text("", ""));
    assert!(!same_text("/X", "/Y"));
    assert!(!same_text("/S", "/Sdg"));
    assert!(!same_text("/Sdg", "/S"));
    assert!(!same_text("/x", "/X"));
    assert!(same_text("/é", "/é"));
    assert!(!same_text("/é", "/e"));
}

#[test]
fn operation_table_has_eleven_rows() {
    let table = [
        (Operation::InitZero, "/InitZero", 2usize),
        (Operation::X, "/X", 2),
        (Operation::Y, "/Y", 2),
        (Operation::Z, "/Z", 2),
        (Operation::H, "/H", 2),
        (Operation::S, "/S", 2),
        (Operation::Sdg, "/Sdg", 2),
        (Operation::T, "/T", 2),
        (Operation::Tdg, "/Tdg", 2),
        (Operation::CX, "/CX", 4),
        (Operation::Mz, "/Mz", 2),
    ];
    for (operation, address, arity) in table {
        assert_eq!(operation.address(), address);
        assert_eq!(operation.operand_count(), arity);
        assert_eq!(Operation::from_address(address), Some(operation));
    }
}

#[test]
fn operation_lookup_is_exact() {
    assert_eq!(Operation::from_address("/Foo"), None);
    assert_eq!(Operation::from_address(""), None);
    assert_eq!(Operation::from_address("/"), None);
    assert_eq!(Operation::from_address("X"), None);
    assert_eq!(Operation::from_address("/x"), None);
    assert_eq!(Operation::from_address("/X "), None);
    assert_eq!(Operation::from_address("/XX"), None);
    assert_eq!(Operation::from_address("/initzero"), None);
    assert_eq!(Operation::from_address("/Sd"), None);
    assert_eq!(Operation::from_address("/CX/"), None);
}

#[test]
fn integers_picks_every_integer_in_order() {
    assert_eq!(integers(&vec![]), Some(vec![]));
    assert_eq!(
        integers(&vec![WireArg::Int(3), WireArg::Int(-4), WireArg::Int(3)]),
        Some(vec![3, -4, 3])
    );
    assert_eq!(integers(&vec![WireArg::Int(3), WireArg::Other]), None);
    assert_eq!(integers(&vec![WireArg::Other, WireArg::Int(3)]), None);
}

#[test]
fn arguments_wraps_every_value_in_order() {
    assert_eq!(arguments(&vec![]), Vec::<WireArg>::new());
    assert_eq!(
        arguments(&vec![5, -6, 5]),
        vec![WireArg::Int(5), WireArg::Int(-6), WireArg::Int(5)]
    );
    assert_eq!(integers(&arguments(&vec![1, 2, 3])), Some(vec![1, 2, 3]));
}

#[test]
fn read_operation_reads_address_and_operands() {
    assert_eq!(read_operation(ints("/H", &[4, 5])), Ok((Operation::H, vec![4, 5])));
    assert_eq!(read_operation(ints("/H", &[4, 5, 6])), Ok((Operation::H, vec![4, 5, 6])));
    assert_eq!(read_operation(ints("/H", &[4])), Err(MessageError::InvalidArgs));
    assert_eq!(
        read_operation(ints("/Nope", &[4, 5])),
        Err(MessageError::InvalidAddr("/Nope".to_owned()))
    );
}

#[test]
fn write_operation_writes_address_and_operands() {
    assert_eq!(write_operation(Operation::Tdg, &vec![7, 8]), ints("/Tdg", &[7, 8]));
    assert_eq!(write_operation(Operation::CX, &vec![1, 2, 3, 4]), ints("/CX", &[1, 2, 3, 4]));
}

#[test]
fn decode_every_address() {
    assert_eq!(Message::decode(ints("/InitZero", &[0, 1])), Ok(Message::InitZero(0, 1)));
    assert_eq!(Message::decode(ints("/X", &[1, 2])), Ok(Message::X(1, 2)));
    assert_eq!(Message::decode(ints("/Y", &[3, 4])), Ok(Message::Y(3, 4)));
    assert_eq!(Message::decode(ints("/Z", &[5, 6])), Ok(Message::Z(5, 6)));
    assert_eq!(Message::decode(ints("/H", &[0, 0])), Ok(Message::H(0, 0)));
    assert_eq!(Message::decode(ints("/S", &[7, 8])), Ok(Message::S(7, 8)));
    assert_eq!(Message::decode(ints("/Sdg", &[9, 10])), Ok(Message::Sdg(9, 10)));
    assert_eq!(Message::decode(ints("/T", &[11, 12])), Ok(Message::T(11, 12)));
    assert_eq!(Message::decode(ints("/Tdg", &[13, 14])), Ok(Message::Tdg(13, 14)));
    assert_eq!(Message::decode(ints("/CX", &[15, 16, 17, 18])), Ok(Message::CX(15, 16, 17, 18)));
    assert_eq!(Message::decode(ints("/Mz", &[19, 20])), Ok(Message::Mz(19, 20)));
}

#[test]
fn encode_every_command() {
    assert_eq!(Message::InitZero(0, 1).encode(), ints("/InitZero", &[0, 1]));
    assert_eq!(Message::X(1, 2).encode(), ints("/X", &[1, 2]));
    assert_eq!(Message::Y(3, 4).encode(), ints("/Y", &[3, 4]));
    assert_eq!(Message::Z(5, 6).encode(), ints("/Z", &[5, 6]));
    assert_eq!(Message::H(0, 0).encode(), ints("/H", &[0, 0]));
    assert_eq!(Message::S(7, 8).encode(), ints("/S", &[7, 8]));
    assert_eq!(Message::Sdg(9, 10).encode(), ints("/Sdg", &[9, 10]));
    assert_eq!(Message::T(11, 12).encode(), ints("/T", &[11, 12]));
    assert_eq!(Message::Tdg(13, 14).encode(), ints("/Tdg", &[13, 14]));
    assert_eq!(Message::CX(15, 16, 17, 18).encode(), ints("/CX", &[15, 16, 17, 18]));
    assert_eq!(Message::Mz(19, 20).encode(), ints("/Mz", &[19, 20]));
}

#[test]
fn command_round_trip() {
    for command in every_command() {
        assert_eq!(Message::decode(command.encode()), Ok(command));
    }
}

#[test]
fn command_operation_and_operands() {
    assert_eq!(Message::CX(1, 2, 3, 4).operation(), Operation::CX);
    assert_eq!(Message::CX(1, 2, 3, 4).operands(), vec![1, 2, 3, 4]);
    assert_eq!(Message::Mz(5, 6).operation(), Operation::Mz);
    assert_eq!(Message::Mz(5, 6).operands(), vec![5, 6]);
    for command in every_command() {
        assert_eq!(command.operands().len(), command.operation().operand_count());
        assert_eq!(Message::assemble(command.operation(), &command.operands()), command);
    }
}

#[test]
fn assemble_reads_leading_values() {
    assert_eq!(Message::assemble(Operation::Y, &vec![1, 2, 3]), Message::Y(1, 2));
    assert_eq!(Message::assemble(Operation::CX, &vec![1, 2, 3, 4, 5]), Message::CX(1, 2, 3, 4));
}

#[test]
fn controlled_x_needs_four_integers() {
    assert_eq!(Message::decode(ints("/CX", &[])), Err(MessageError::InvalidArgs));
    assert_eq!(Message::decode(ints("/CX", &[1])), Err(MessageError::InvalidArgs));
    assert_eq!(Message::decode(ints("/CX", &[1, 2])), Err(MessageError::InvalidArgs));
    assert_eq!(Message::decode(ints("/CX", &[1, 2, 3])), Err(MessageError::InvalidArgs));
    assert_eq!(Message::decode(ints("/CX", &[1, 2, 3, 4])), Ok(Message::CX(1, 2, 3, 4)));
}

#[test]
fn controlled_x_takes_any_sign_and_magnitude() {
    assert_eq!(
        Message::decode(ints("/CX", &[i32::MIN, -1, 0, i32::MAX])),
        Ok(Message::CX(i32::MIN, -1, 0, i32::MAX))
    );
    assert_eq!(
        Message::decode(ints("/CX", &[-7, -7, -7, -7])),
        Ok(Message::CX(-7, -7, -7, -7))
    );
}

#[test]
fn single_operand_operations_need_two_integers() {
    for address in ["/InitZero", "/X", "/Y", "/Z", "/H", "/S", "/Sdg", "/T", "/Tdg", "/Mz"] {
        assert_eq!(Message::decode(ints(address, &[])), Err(MessageError::InvalidArgs));
        assert_eq!(Message::decode(ints(address, &[1])), Err(MessageError::InvalidArgs));
        assert!(Message::decode(ints(address, &[1, 2])).is_ok());
    }
}

#[test]
fn arguments_beyond_the_arity_are_ignored() {
    assert_eq!(Message::decode(ints("/X", &[1, 2, 3])), Ok(Message::X(1, 2)));
    assert_eq!(Message::decode(ints("/CX", &[1, 2, 3, 4, 5, 6])), Ok(Message::CX(1, 2, 3, 4)));
}

#[test]
fn other_argument_types_are_rejected() {
    assert_eq!(
        Message::decode(wire("/X", vec![WireArg::Int(1), WireArg::Other])),
        Err(MessageError::InvalidArgs)
    );
    assert_eq!(
        Message::decode(wire("/X", vec![WireArg::Other, WireArg::Int(1)])),
        Err(MessageError::InvalidArgs)
    );
    assert_eq!(
        Message::decode(wire("/X", vec![WireArg::Int(1), WireArg::Int(2), WireArg::Other])),
        Err(MessageError::InvalidArgs)
    );
}

#[test]
fn unknown_address_is_rejected() {
    assert_eq!(
        Message::decode(ints("/Foo", &[1, 2])),
        Err(MessageError::InvalidAddr("/Foo".to_owned()))
    );
    assert_eq!(
        Message::decode(ints("/Foo", &[])),
        Err(MessageError::InvalidAddr("/Foo".to_owned()))
    );
    assert_eq!(
        Message::decode(wire("/Foo", vec![WireArg::Other])),
        Err(MessageError::InvalidAddr("/Foo".to_owned()))
    );
    assert_eq!(Message::decode(ints("", &[1, 2])), Err(MessageError::InvalidAddr(String::new())));
}

#[test]
fn table_addresses_are_never_unknown() {
    for address in ["/InitZero", "/X", "/Y", "/Z", "/H", "/S", "/Sdg", "/T", "/Tdg", "/CX", "/Mz"] {
        for count in 0..6 {
            let values: Vec<i32> = (0..count).collect();
            let decoded = Message::decode(ints(address, &values));
            assert!(!matches!(decoded, Err(MessageError::InvalidAddr(_))));
        }
    }
}

#[test]
fn message_error_text() {
    assert_eq!(
        MessageError::InvalidAddr("/Foo".to_owned()).message(),
        "Invalid address `/Foo`"
    );
    assert_eq!(MessageError::InvalidArgs.message(), "Invalid arguments");
}
