use vested_transfers::datatypes::{DataTypes, DataTypesState, MaintenanceStatus};

const SC: u64 = 10;
const OWNER: u64 = 11;

#[test]
fn init_seeds_the_sample_store_contents() {
    let mut state = DataTypesState::new(SC, OWNER);
    state.init();
    assert_eq!(state.single_value_mapper(0), 1);
    assert_eq!(state.single_value_mapper(1), 2);
    assert_eq!(state.single_value_mapper(2), 0);
    assert_eq!(state.vec_mapper(0), vec![1, 2]);
    assert_eq!(state.vec_mapper(1), vec![10, 11]);
    assert_eq!(state.vec_mapper(5).len(), 0);
    assert_eq!(state.set_mapper(0), vec![1, 2, 3]);
    assert_eq!(state.set_mapper(1), vec![5, 6, 7]);
    assert_eq!(state.unordered_set_mapper(0), vec![1, 2]);
    assert_eq!(state.unordered_set_mapper(1), vec![5, 6]);
    assert_eq!(state.map_mapper(0), vec![(0, 1), (1, 2)]);
    assert_eq!(state.map_mapper(1), vec![(1, 10), (2, 11)]);
    assert_eq!(state.map_mapper(9).len(), 0);
}

#[test]
fn element_sets_ignore_duplicates() {
    let mut state = DataTypesState::new(SC, OWNER);
    assert!(state.insert_set_value(3, 42));
    assert!(!state.insert_set_value(3, 42));
    assert_eq!(state.set_mapper(3), vec![42]);
    assert!(state.insert_unordered_set_value(3, 42));
    assert!(!state.insert_unordered_set_value(3, 42));
    assert_eq!(state.unordered_set_mapper(3), vec![42]);
}

#[test]
fn pair_stores_replace_and_answer_old_bindings() {
    let mut state = DataTypesState::new(SC, OWNER);
    assert_eq!(state.insert_map_value(3, 9, 100), None);
    assert_eq!(state.insert_map_value(3, 9, 200), Some(100));
    assert_eq!(state.map_mapper(3), vec![(9, 200)]);
}

#[test]
fn primitive_samples_hold_the_expected_values() {
    let state = DataTypesState::new(SC, OWNER);
    let data = state.get_primitive_datatypes();
    assert!(data.boolean);
    assert_eq!(data.unsigned8, 10);
    assert_eq!(data.unsigned16, 1000);
    assert_eq!(data.unsigned32, 100000);
    assert_eq!(data.unsigned64, 1000000000000000000);
    assert_eq!(data.unsigned_size, 200000);
    assert_eq!(data.signed8, 5);
    assert_eq!(data.signed16, 500);
    assert_eq!(data.signed32, 50000);
    assert_eq!(data.signed64, 500000000000000000);
    assert_eq!(data.signed_size, 300000);
    assert_eq!(data.enumeration, MaintenanceStatus::InMaintenance);
}

#[test]
fn managed_samples_hold_the_expected_values() {
    let state = DataTypesState::new(SC, OWNER);
    let data = state.get_managed_datatypes();
    assert_eq!(data.managed_buffer, b"abcd".to_vec());
    assert_eq!(data.big_unsigned_integer, 20000000000);
    assert_eq!(data.big_integer, 10000000000);
    assert_eq!(data.address, SC);
    assert_eq!(data.token_identifier, b"ABCDEF-123456".to_vec());
    assert_eq!(
        data.egld_or_esdt_token_identifier,
        Some(b"ABCDEF-123456".to_vec())
    );
    assert_eq!(data.esdt_token_payment.token_nonce, 120);
    assert_eq!(data.esdt_token_payment.amount, 1000000);
    assert_eq!(data.egld_or_esdt_token_payment.token_nonce, 360);
    assert_eq!(data.egld_or_esdt_token_payment.amount, 2000000);
}

#[test]
fn option_samples_hold_the_expected_values() {
    let state = DataTypesState::new(SC, OWNER);
    let data = state.get_option_datatypes();
    assert_eq!(data.option_of_biguint_set, Some(420));
    assert_eq!(data.option_of_biguint_not_set, None);
    let sub = data.option_of_subtype_set.unwrap();
    assert_eq!(sub.big_unsigned_integer, 12);
    assert_eq!(sub.address, SC);
    assert!(data.option_of_subtype_not_set.is_none());
}

#[test]
fn array_samples_hold_the_expected_values() {
    let state = DataTypesState::new(SC, OWNER);
    let data = state.get_array_datatypes();
    assert_eq!(data.managed_vec_of_u16, vec![12, 26, 3]);
    assert_eq!(data.managed_vec_of_subtype.len(), 2);
    assert_eq!(data.managed_vec_of_subtype[0].big_unsigned_integer, 14);
    assert_eq!(data.managed_vec_of_subtype[0].address, SC);
    assert_eq!(data.managed_vec_of_subtype[1].big_unsigned_integer, 133);
    assert_eq!(data.managed_vec_of_subtype[1].address, OWNER);
    assert_eq!(data.fixed_array, [1, 2, 3, 4, 5]);
    assert_eq!(data.fixed_array_complex[0].big_unsigned_integer, 100000000);
    assert_eq!(data.fixed_array_complex[1].big_unsigned_integer, 200000000);
    assert_eq!(data.fixed_array_complex[2].big_unsigned_integer, 300000000);
    assert_eq!(data.tuples, (10, 300));
    assert_eq!(data.tuples_complex.0, 20);
    assert_eq!(data.tuples_complex.1.big_unsigned_integer, 300000000);
    assert_eq!(data.tuples_complex.1.address, SC);
}

#[test]
fn other_samples_hold_the_expected_values() {
    let state = DataTypesState::new(SC, OWNER);
    let data = state.get_other_datatypes();
    assert_eq!(data.custom_type.big_unsigned_integer, 100000000);
    assert_eq!(data.custom_type.address, SC);
}

#[test]
fn echo_endpoints_return_their_argument() {
    let state = DataTypesState::new(SC, OWNER);
    let primitive = state.get_primitive_datatypes();
    assert_eq!(state.set_primitive_datatypes(primitive), primitive);
    let managed = state.get_managed_datatypes();
    assert_eq!(state.set_managed_datatypes(managed.clone()), managed);
    let option = state.get_option_datatypes();
    assert_eq!(state.set_option_datatypes(option), option);
    let array = state.get_array_datatypes();
    let echoed = state.set_array_datatypes(array);
    assert_eq!(echoed.managed_vec_of_u16, vec![12, 26, 3]);
    assert_eq!(echoed.tuples, (10, 300));
    let other = state.get_other_datatypes();
    assert_eq!(state.set_other_datatypes(other), other);
}

#[test]
fn optional_value_arguments_pass_through() {
    let state = DataTypesState::new(SC, OWNER);
    assert_eq!(state.get_optional_value_1st_arg(Some(5)), Some(5));
    assert_eq!(state.get_optional_value_1st_arg(None), None);
    assert_eq!(state.get_optional_value_2nd_arg(9, Some(5)), (9, Some(5)));
    assert_eq!(state.get_optional_value_2nd_arg(9, None), (9, None));
}

#[test]
fn sample_vectors_hold_the_expected_values() {
    let state = DataTypesState::new(SC, OWNER);
    assert_eq!(state.get_sample_mvec(), vec![12, 26, 3]);
    let complex = state.get_sample_mvec_complex();
    assert_eq!(complex.len(), 2);
    assert_eq!(complex[0].big_unsigned_integer, 14);
    assert_eq!(complex[0].address, SC);
    assert_eq!(complex[1].big_unsigned_integer, 133);
    assert_eq!(complex[1].address, OWNER);
}
