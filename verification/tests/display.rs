//! Builder identities, display texts and the state of the display.
use blocktop::model::{Block, Header, Transaction, TxPayload};
use blocktop::primitives::{FixedBytes, U256};
use blocktop::ui::{App, StatefulList, View};
use blocktop::utils::{
    duration_since_timestamp, elapsed_between, etherscan_block_url, etherscan_transaction_url,
    grab_range, human_readable_tx_data, label_address, shorten_address, shorten_hash,
    shorten_text, useful_gas_price, AddressLabels, BuilderIdentity, BuilderNetIdentity, Elapsed,
    LabelEntry,
};

fn vitalik() -> FixedBytes<20> {
    FixedBytes::<20>::from_hex("0xd8da6bf26964af9d7eed9e03e53415d37aa96045").unwrap()
}

#[test]
fn builders_are_known_by_their_extra_data() {
    let of = |tag: &str| BuilderIdentity::from(tag.as_bytes().to_vec());
    assert_eq!(of("beaverbuild.org"), BuilderIdentity::Beaver);
    assert_eq!(of("Titan (titanbuilder.xyz)"), BuilderIdentity::Titan);
    assert_eq!(of("@rsyncbuilder"), BuilderIdentity::Rsync);
    assert_eq!(of("rsync-builder.xyz"), BuilderIdentity::Rsync);
    assert_eq!(of("Illuminate Dmocratize Dstribute"), BuilderIdentity::Flashbots);
    assert_eq!(of("Illuminate Dmocrtz Dstrib Prtct"), BuilderIdentity::Flashbots);
    assert_eq!(of("@@penguinbuild.org"), BuilderIdentity::Penguin);
    assert_eq!(of("Nethermind"), BuilderIdentity::Nethermind);
    assert_eq!(of("jetbldr.xyz"), BuilderIdentity::Jet);
    assert_eq!(of("lokibuilder.xyz"), BuilderIdentity::Loki);
    assert_eq!(of("by @builder0x69"), BuilderIdentity::SixtyNine);
    assert_eq!(of("BuildAI (https://buildai.net)"), BuilderIdentity::BuildAI);
    assert_eq!(of("https://blockbeelder.com \u{1f41d}"), BuilderIdentity::Beelder);
    assert_eq!(of("blocksmith.org"), BuilderIdentity::Blocksmith);
    assert_eq!(of("bobTheBuilder.xyz"), BuilderIdentity::Bob);
    assert_eq!(of("boba-builder.com"), BuilderIdentity::Boba);
    assert_eq!(of("Manifold: coinbase"), BuilderIdentity::Manifold);
    assert_eq!(of("Bitget(https://www.bitget.com/)"), BuilderIdentity::Bitget);
    assert_eq!(of("Builder+ www.btcs.com/builder"), BuilderIdentity::Btcs);
    assert_eq!(
        of("BuilderNet (Flashbots)"),
        BuilderIdentity::BuilderNet(BuilderNetIdentity::Flashbots)
    );
    assert_eq!(
        of("BuilderNet (Nethermind)"),
        BuilderIdentity::BuilderNet(BuilderNetIdentity::Nethermind)
    );
    assert_eq!(
        of("BuilderNet (Beaverbuild)"),
        BuilderIdentity::BuilderNet(BuilderNetIdentity::Beaver)
    );
    assert_eq!(of("geth"), BuilderIdentity::Local);
    assert_eq!(of(""), BuilderIdentity::Local);
    assert_eq!(of("Beaverbuild.org"), BuilderIdentity::Local);
    assert_eq!(BuilderIdentity::from(vec![0xff, 0xfe]), BuilderIdentity::Local);
    assert_eq!(BuilderIdentity::from_extra_data(b"Nethermind"), BuilderIdentity::Nethermind);
}

#[test]
fn builders_have_display_names() {
    assert_eq!(BuilderIdentity::Beaver.to_string(), "beaverbuild");
    assert_eq!(BuilderIdentity::Titan.to_string(), "Titan Builder");
    assert_eq!(BuilderIdentity::SixtyNine.to_string(), "Builder0x69");
    assert_eq!(BuilderIdentity::Btcs.to_string(), "Builder+");
    assert_eq!(BuilderIdentity::Local.to_string(), "<local>");
    assert_eq!(
        BuilderIdentity::BuilderNet(BuilderNetIdentity::Beaver).to_string(),
        "BuilderNet - Beaver"
    );
    assert_eq!(BuilderNetIdentity::Flashbots.to_string(), "Flashbots");
    assert_eq!(BuilderNetIdentity::Nethermind.to_string(), "Nethermind");
}

#[test]
fn builder_net_operators_are_parsed() {
    assert_eq!(
        BuilderNetIdentity::from_str("BuilderNet (Flashbots)"),
        Ok(BuilderNetIdentity::Flashbots)
    );
    assert_eq!(
        BuilderNetIdentity::from_str("Illuminate Dmocrtz Dstrib Prtct"),
        Ok(BuilderNetIdentity::Flashbots)
    );
    assert_eq!(
        BuilderNetIdentity::from_str("BuilderNet (Nethermind)"),
        Ok(BuilderNetIdentity::Nethermind)
    );
    assert_eq!(
        "BuilderNet (Beaverbuild)".parse::<BuilderNetIdentity>(),
        Ok(BuilderNetIdentity::Beaver)
    );
    assert_eq!(BuilderNetIdentity::from_str("BuilderNet"), Err("Unknown BuilderNet operator"));
    assert_eq!("".parse::<BuilderNetIdentity>(), Err("Unknown BuilderNet operator"));
}

#[test]
fn explorer_links() {
    assert_eq!(etherscan_block_url(19_000_000), "https://etherscan.io/block/19000000");
    assert_eq!(etherscan_block_url(0), "https://etherscan.io/block/0");
    assert_eq!(
        etherscan_transaction_url(&FixedBytes { bytes: [0x5a; 32] }),
        format!("https://etherscan.io/tx/0x{}", "5a".repeat(32))
    );
}

#[test]
fn short_forms() {
    assert_eq!(shorten_hash(&FixedBytes { bytes: [0xab; 32] }), "0xababab...");
    assert_eq!(shorten_address(&vitalik()), "0xd8dA...6045");
    assert_eq!(shorten_address(&FixedBytes { bytes: [0; 20] }), "0x0000...0000");
    assert_eq!(shorten_text("0123456789"), "012345...6789");
    assert_eq!(shorten_text("012345"), "012345...2345");
}

#[test]
fn transaction_data_for_lists() {
    assert_eq!(human_readable_tx_data(&[]), "\u{2205}");
    assert_eq!(human_readable_tx_data(&[0xa9, 0x05, 0x9c, 0xbb]), "0xa9059cbb");
    assert_eq!(human_readable_tx_data(&[1; 10]), format!("0x{}", "01".repeat(10)));
    assert_eq!(human_readable_tx_data(&[1; 11]), "0x01010101...");
}

#[test]
fn ranges_are_cut_at_the_end() {
    let xs = [0u8, 1, 2, 3, 4];
    assert_eq!(grab_range(&xs, 1, 3), vec![1, 2]);
    assert_eq!(grab_range(&xs, 3, 9), vec![3, 4]);
    assert_eq!(grab_range(&xs, 5, 9), Vec::<u8>::new());
    assert_eq!(grab_range(&xs, 7, 2), Vec::<u8>::new());
    assert_eq!(grab_range(&xs, 2, 2), Vec::<u8>::new());
    assert_eq!(grab_range(&xs, 0, 5), xs.to_vec());
}

#[test]
fn labels_come_from_the_table() {
    let other = FixedBytes { bytes: [1; 20] };
    let labels = AddressLabels {
        entries: vec![
            LabelEntry { address: vitalik(), name_tag: "first".to_string() },
            LabelEntry { address: other, name_tag: "x".repeat(40) },
            LabelEntry { address: vitalik(), name_tag: "vitalik.eth".to_string() },
        ],
    };
    assert_eq!(labels.find(&vitalik()), Some(2));
    assert_eq!(labels.find(&FixedBytes { bytes: [2; 20] }), None);
    assert_eq!(label_address(&vitalik(), &labels), "vitalik.eth");
    assert_eq!(label_address(&other, &labels), "x".repeat(32));
    assert_eq!(label_address(&vitalik(), &AddressLabels::new()), "0xd8dA...6045");
}

#[test]
fn elapsed_time() {
    assert_eq!(elapsed_between(100, 5, 40), Some(Elapsed { secs: 60, nanos: 5 }));
    assert_eq!(elapsed_between(100, 0, 100), Some(Elapsed { secs: 0, nanos: 0 }));
    assert_eq!(elapsed_between(100, 999, 101), None);
    let long_ago = duration_since_timestamp(0).unwrap();
    assert!(long_ago.secs > 1_700_000_000);
    assert!(long_ago.nanos < 1_000_000_000);
    assert_eq!(duration_since_timestamp(u64::MAX), None);
}

fn tx(byte: u8, payload: TxPayload) -> Transaction {
    Transaction {
        hash: FixedBytes { bytes: [byte; 32] },
        from: FixedBytes { bytes: [0; 20] },
        nonce: 0,
        gas_limit: 0,
        value: U256::zero(),
        input: vec![byte],
        block_hash: None,
        block_number: None,
        position: None,
        payload,
    }
}

fn legacy(byte: u8) -> Transaction {
    tx(byte, TxPayload::Legacy { chain_id: None, gas_price: 11, to: None })
}

#[test]
fn gas_price_on_offer() {
    assert_eq!(useful_gas_price(&legacy(1)), 11);
    let t = tx(1, TxPayload::AccessList { chain_id: 1, gas_price: 12, to: None });
    assert_eq!(useful_gas_price(&t), 12);
    let t = tx(
        1,
        TxPayload::DynamicFee {
            chain_id: 1,
            max_fee_per_gas: 30,
            max_priority_fee_per_gas: 2,
            to: None,
        },
    );
    assert_eq!(useful_gas_price(&t), 30);
}

#[test]
fn list_selection_wraps() {
    let mut list = StatefulList::with_items(vec!['a', 'b', 'c']);
    assert_eq!(list.selected, None);
    assert_eq!(list.selected_item(), None);
    list.next();
    assert_eq!(list.selected, Some(0));
    list.next();
    list.next();
    assert_eq!(list.selected_item(), Some(&'c'));
    list.next();
    assert_eq!(list.selected, Some(0));
    list.previous();
    assert_eq!(list.selected, Some(2));
    list.previous();
    assert_eq!(list.selected, Some(1));
    let mut fresh = StatefulList::with_items(vec![1]);
    fresh.previous();
    assert_eq!(fresh.selected, Some(0));
    let mut empty: StatefulList<u8> = StatefulList::with_items(vec![]);
    empty.next();
    assert_eq!(empty.selected, Some(0));
    assert_eq!(empty.selected_item(), None);
}

fn header(number: u64, byte: u8) -> Header {
    let mut h = Header::default();
    h.number = number;
    h.hash = FixedBytes { bytes: [byte; 32] };
    h.gas_used = number * 10;
    h
}

fn app() -> App {
    App::new("blocktop".to_string(), Block::default(), legacy(0))
}

#[test]
fn keys_move_between_views() {
    let mut a = app();
    assert_eq!(View::default(), View::Default);
    assert_eq!(a.view, View::Default);
    a.on_enter();
    assert_eq!(a.view, View::Default);
    assert_eq!(a.on_tick(header(100, 1)), None);
    a.on_down();
    assert_eq!(a.get_selected_header(), Some(&header(100, 1)));
    a.on_enter();
    assert_eq!(a.view, View::Block);
    a.on_enter();
    assert_eq!(a.view, View::Block);
    a.on_block(Some(Block { header: header(100, 1), transactions: vec![legacy(1), legacy(2)] }));
    a.on_down();
    a.on_down();
    assert_eq!(a.get_selected_transaction(), Some(&legacy(2)));
    a.on_up();
    assert_eq!(a.get_selected_transaction(), Some(&legacy(1)));
    a.on_transaction();
    assert_eq!(a.selected_transaction, legacy(1));
    a.on_enter();
    assert_eq!(a.view, View::Transaction);
    a.on_up();
    a.on_down();
    assert_eq!(a.transactions.selected, Some(0));
    a.on_esc();
    assert_eq!(a.view, View::Block);
    a.on_esc();
    assert_eq!(a.view, View::Default);
    assert!(!a.should_quit);
    a.on_esc();
    assert!(a.should_quit);
}

#[test]
fn keys_quit_and_open_links() {
    let mut a = app();
    assert_eq!(a.on_key('e'), None);
    assert_eq!(a.on_key('x'), None);
    assert!(!a.should_quit);
    a.selected_block = Block { header: header(100, 1), transactions: vec![] };
    a.view = View::Block;
    assert_eq!(a.on_key('e'), Some("https://etherscan.io/block/100".to_string()));
    a.view = View::Transaction;
    a.selected_transaction = legacy(0xcd);
    assert_eq!(
        a.on_key('e'),
        Some(format!("https://etherscan.io/tx/0x{}", "cd".repeat(32)))
    );
    assert_eq!(a.on_key('q'), None);
    assert!(a.should_quit);
    let mut b = app();
    b.on_quit();
    assert!(b.should_quit);
}

#[test]
fn ticks_list_each_header_once() {
    let mut a = app();
    assert_eq!(a.on_tick(header(100, 1)), None);
    assert_eq!(a.on_tick(header(100, 1)), None);
    assert_eq!(a.on_tick(header(101, 2)), None);
    assert_eq!(a.block_headers.items, vec![header(100, 1), header(101, 2)]);
    assert_eq!(
        a.chart_data(),
        vec![("100".to_string(), 1000), ("101".to_string(), 1010)]
    );
    a.on_down();
    assert_eq!(a.on_tick(header(101, 2)), Some(FixedBytes { bytes: [1; 32] }));
    a.on_block(None);
    assert_eq!(a.selected_block, Block::default());
    a.on_block(Some(Block { header: header(100, 1), transactions: vec![legacy(5)] }));
    assert_eq!(a.selected_block.header, header(100, 1));
    assert_eq!(a.transactions.items, vec![legacy(5)]);
    assert_eq!(a.transactions.selected, None);
    a.on_transaction();
    assert_eq!(a.selected_transaction, legacy(0));
    a.view = View::Block;
    assert_eq!(a.on_tick(header(102, 3)), None);
    assert_eq!(a.block_headers.items.len(), 3);
}
