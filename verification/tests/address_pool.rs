use vm_panel::ip_calc::{
    address_text, allocate, cidr_to_list, parse_cidr, AllocateError, CidrError,
};

fn names(list: &[&str]) -> Vec<String> {
    list.iter().map(|s| s.to_string()).collect()
}

#[test]
fn lists_the_six_hosts_of_a_29_bit_block() {
    let (hosts, prefix) = cidr_to_list("10.0.0.0/29").unwrap();
    assert_eq!(prefix, "29");
    assert_eq!(
        hosts,
        names(&[
            "10.0.0.1/29",
            "10.0.0.2/29",
            "10.0.0.3/29",
            "10.0.0.4/29",
            "10.0.0.5/29",
            "10.0.0.6/29"
        ])
    );
}

#[test]
fn keeps_both_addresses_of_a_31_bit_block() {
    let (hosts, prefix) = cidr_to_list("192.168.1.4/31").unwrap();
    assert_eq!(prefix, "31");
    assert_eq!(hosts, names(&["192.168.1.4/31", "192.168.1.5/31"]));
}

#[test]
fn keeps_the_one_address_of_a_32_bit_block() {
    let (hosts, _) = cidr_to_list("192.168.1.4/32").unwrap();
    assert_eq!(hosts, names(&["192.168.1.4/32"]));
}

#[test]
fn carries_into_the_higher_parts() {
    let (hosts, _) = cidr_to_list("10.0.255.254/30").unwrap();
    assert_eq!(hosts, names(&["10.0.255.255/30", "10.1.0.0/30"]));
}

#[test]
fn a_24_bit_block_has_254_hosts() {
    let (hosts, _) = cidr_to_list("172.16.5.0/24").unwrap();
    assert_eq!(hosts.len(), 254);
    assert_eq!(hosts[0], "172.16.5.1/24");
    assert_eq!(hosts[253], "172.16.5.254/24");
}

#[test]
fn rejects_a_text_without_a_slash() {
    assert_eq!(cidr_to_list("10.0.0.0").unwrap_err(), CidrError::InvalidFormat);
    assert_eq!(cidr_to_list("").unwrap_err(), CidrError::InvalidFormat);
}

#[test]
fn rejects_a_text_outside_ascii() {
    assert_eq!(cidr_to_list("10.0.0.\u{661}/24").unwrap_err(), CidrError::InvalidFormat);
}

#[test]
fn rejects_a_malformed_address() {
    assert_eq!(cidr_to_list("10.0.0/24").unwrap_err(), CidrError::InvalidAddress);
    assert_eq!(cidr_to_list("10.0.0.0.0/24").unwrap_err(), CidrError::InvalidAddress);
    assert_eq!(cidr_to_list("10.0.0.256/24").unwrap_err(), CidrError::InvalidAddress);
    assert_eq!(cidr_to_list("10..0.1/24").unwrap_err(), CidrError::InvalidAddress);
    assert_eq!(cidr_to_list("10.0.0.x/24").unwrap_err(), CidrError::InvalidAddress);
    assert_eq!(cidr_to_list("-1.0.0.0/24").unwrap_err(), CidrError::InvalidAddress);
    assert_eq!(cidr_to_list("/24").unwrap_err(), CidrError::InvalidAddress);
}

#[test]
fn rejects_a_malformed_prefix() {
    assert_eq!(cidr_to_list("10.0.0.0/33").unwrap_err(), CidrError::InvalidPrefix);
    assert_eq!(cidr_to_list("10.0.0.0/").unwrap_err(), CidrError::InvalidPrefix);
    assert_eq!(cidr_to_list("10.0.0.0/2/4").unwrap_err(), CidrError::InvalidPrefix);
    assert_eq!(cidr_to_list("10.0.0.0/+8").unwrap_err(), CidrError::InvalidPrefix);
}

#[test]
fn rejects_a_block_that_leaves_the_address_space() {
    assert_eq!(
        cidr_to_list("255.255.255.254/30").unwrap_err(),
        CidrError::AddressOverflow
    );
    assert!(cidr_to_list("255.255.255.252/30").is_ok());
}

#[test]
fn accepts_leading_zeros_and_keeps_the_prefix_as_written() {
    let block = parse_cidr("010.000.0.1/030").unwrap();
    assert_eq!(block.base, 0x0a00_0001);
    assert_eq!(block.prefix_len, 30);
    assert_eq!(block.prefix, "030");
    let (hosts, prefix) = cidr_to_list("010.000.0.1/030").unwrap();
    assert_eq!(prefix, "030");
    assert_eq!(hosts, names(&["10.0.0.2/030", "10.0.0.3/030"]));
}

#[test]
fn allocates_the_lowest_free_host() {
    let used = names(&["10.0.0.2/29"]);
    assert_eq!(allocate("10.0.0.0/29", "10.0.0.1", &used).unwrap(), "10.0.0.3/29");
}

#[test]
fn never_allocates_the_gateway() {
    assert_eq!(allocate("10.0.0.0/29", "10.0.0.1", &Vec::new()).unwrap(), "10.0.0.2/29");
    assert_eq!(allocate("10.0.0.0/29", "10.0.0.9", &Vec::new()).unwrap(), "10.0.0.1/29");
}

#[test]
fn five_allocations_exhaust_a_29_bit_block_with_a_gateway() {
    let mut used: Vec<String> = Vec::new();
    let mut handed_out: Vec<String> = Vec::new();
    for _ in 0..5 {
        let name = allocate("10.0.0.0/29", "10.0.0.1", &used).unwrap();
        assert!(!used.contains(&name));
        assert_ne!(name, "10.0.0.1/29");
        used.push(name.clone());
        handed_out.push(name);
    }
    assert_eq!(
        handed_out,
        names(&["10.0.0.2/29", "10.0.0.3/29", "10.0.0.4/29", "10.0.0.5/29", "10.0.0.6/29"])
    );
    assert_eq!(
        allocate("10.0.0.0/29", "10.0.0.1", &used).unwrap_err(),
        AllocateError::PoolExhausted
    );
}

#[test]
fn allocation_reports_a_malformed_block() {
    assert_eq!(
        allocate("10.0.0.0", "10.0.0.1", &Vec::new()).unwrap_err(),
        AllocateError::Cidr(CidrError::InvalidFormat)
    );
}

#[test]
fn a_16_bit_block_has_65534_hosts() {
    let (hosts, prefix) = cidr_to_list("10.0.0.0/16").unwrap();
    assert_eq!(prefix, "16");
    assert_eq!(hosts.len(), 65534);
    assert_eq!(hosts[0], "10.0.0.1/16");
    assert_eq!(hosts[255], "10.0.1.0/16");
    assert_eq!(hosts[65533], "10.0.255.254/16");
}

#[test]
fn a_30_bit_block_has_two_hosts() {
    let (hosts, _) = cidr_to_list("10.0.0.8/30").unwrap();
    assert_eq!(hosts, names(&["10.0.0.9/30", "10.0.0.10/30"]));
}

#[test]
fn allocation_does_not_list_the_whole_block() {
    assert_eq!(allocate("0.0.0.0/0", "0.0.0.1", &Vec::new()).unwrap(), "0.0.0.2/0");
    assert_eq!(allocate("10.0.0.0/8", "10.0.0.1", &names(&["10.0.0.2/8"])).unwrap(), "10.0.0.3/8");
    assert_eq!(allocate("0.0.0.0/1", "9.9.9.9", &Vec::new()).unwrap(), "0.0.0.1/1");
}

#[test]
fn a_gateway_outside_the_block_takes_no_host() {
    let mut used: Vec<String> = Vec::new();
    for _ in 0..6 {
        let name = allocate("10.0.0.0/29", "10.0.1.1", &used).unwrap();
        assert!(!used.contains(&name));
        used.push(name);
    }
    assert_eq!(
        allocate("10.0.0.0/29", "10.0.1.1", &used).unwrap_err(),
        AllocateError::PoolExhausted
    );
}

#[test]
fn names_in_use_that_are_no_hosts_change_nothing() {
    let used = names(&["10.0.0.2", "10.0.0.2/28", "10.0.0.0/29", "10.0.0.7/29", "elsewhere"]);
    assert_eq!(allocate("10.0.0.0/29", "10.0.0.1", &used).unwrap(), "10.0.0.2/29");
}

#[test]
fn small_blocks_are_exhausted_too() {
    assert_eq!(allocate("10.0.0.4/32", "10.0.0.1", &Vec::new()).unwrap(), "10.0.0.4/32");
    assert_eq!(
        allocate("10.0.0.4/32", "10.0.0.4", &Vec::new()).unwrap_err(),
        AllocateError::PoolExhausted
    );
    assert_eq!(
        allocate("10.0.0.4/31", "10.0.0.4", &names(&["10.0.0.5/31"])).unwrap_err(),
        AllocateError::PoolExhausted
    );
}

#[test]
fn errors_have_their_words() {
    assert_eq!(CidrError::InvalidFormat.message(), "Invalid CIDR format");
    assert_eq!(CidrError::InvalidAddress.message(), "Invalid CIDR address");
    assert_eq!(CidrError::InvalidPrefix.message(), "Invalid CIDR prefix");
    assert_eq!(CidrError::AddressOverflow.message(), "IP address overflow");
}

#[test]
fn an_address_is_named_in_dotted_form_with_the_prefix() {
    assert_eq!(address_text(0, "0"), "0.0.0.0/0");
    assert_eq!(address_text(u32::MAX, "32"), "255.255.255.255/32");
    assert_eq!(address_text(0xc0a8_0164, "24"), "192.168.1.100/24");
    assert_eq!(address_text(0x0100_0000, ""), "1.0.0.0/");
}
