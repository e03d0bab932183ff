use cw_reply_data::{
    execute_echo, reply, reply_response, Attribute, ContractError, EchoDataMsg, Reply, Response,
    SubMsgResult, REPLY_ID,
};

fn success(id: u64, data: &[u8]) -> Reply {
    Reply { id, result: SubMsgResult::Success { data: Some(data.to_vec()) } }
}

fn attribute(key: &str, value: &str) -> Attribute {
    Attribute { key: key.to_string(), value: value.to_string() }
}

#[test]
fn reply_id_is_the_fixed_constant() {
    assert_eq!(REPLY_ID, 0xfa61);
    assert_eq!(REPLY_ID, 64097);
}

#[test]
fn reply_forwards_the_data_byte_for_byte() {
    let data: Vec<u8> = vec![0x00, 0xff, 0x10, 0x20];
    let response = reply(success(REPLY_ID, &data)).unwrap();
    assert_eq!(response.data, Some(data));
    assert_eq!(response.attributes, vec![attribute("reply_data", "AP8QIA==")]);
    assert!(response.messages.is_empty());
}

#[test]
fn reply_forwards_a_single_byte() {
    let response = reply(success(REPLY_ID, &[0x7b])).unwrap();
    assert_eq!(response.data, Some(vec![0x7b]));
    assert_eq!(response.attributes, vec![attribute("reply_data", "ew==")]);
}

#[test]
fn reply_forwards_the_echo_body_of_any_text() {
    let texts = ["", "ping", "hello", "a\"b\\c\n\u{e9}", "\u{0}\u{1f}", "\u{1f600} \u{4e2d}"];
    for text in texts {
        let body = EchoDataMsg { text: text.to_string() }.to_json();
        let response = reply(success(REPLY_ID, &body)).unwrap();
        assert_eq!(response.data, Some(body));
    }
}

#[test]
fn reply_forwards_what_the_echo_handler_set() {
    let echoed = execute_echo("ping".to_string()).unwrap();
    let data = echoed.data.clone().unwrap();
    let response = reply(success(REPLY_ID, &data)).unwrap();
    assert_eq!(response.data, echoed.data);
    assert_eq!(response.data, Some(b"{\"text\":\"ping\"}".to_vec()));
    assert_eq!(response.attributes, vec![attribute("reply_data", "eyJ0ZXh0IjoicGluZyJ9")]);
}

#[test]
fn reply_forwards_a_large_payload() {
    let data: Vec<u8> = (0..300_000u32).map(|i| (i % 251) as u8).collect();
    let response = reply(success(REPLY_ID, &data)).unwrap();
    assert_eq!(response.data.as_ref(), Some(&data));
    assert_eq!(response.attributes.len(), 1);
    assert_eq!(response.attributes[0].value.len(), 400_000);
}

#[test]
fn reply_rejects_any_other_id_whatever_it_carries() {
    let ids: [u64; 5] = [0, 1, REPLY_ID - 1, REPLY_ID + 1, u64::MAX];
    for id in ids {
        assert_eq!(reply(success(id, b"{\"text\":\"ping\"}")), Err(ContractError::UnknownCorrelationId));
        assert_eq!(reply(success(id, b"")), Err(ContractError::UnknownCorrelationId));
        assert_eq!(
            reply(Reply { id, result: SubMsgResult::Success { data: None } }),
            Err(ContractError::UnknownCorrelationId)
        );
        assert_eq!(
            reply(Reply { id, result: SubMsgResult::Failure { error: "boom".to_string() } }),
            Err(ContractError::UnknownCorrelationId)
        );
    }
}

#[test]
fn reply_rejects_a_reported_failure() {
    for error in ["", "boom", "{\"text\":\"ping\"}"] {
        let notice = Reply { id: REPLY_ID, result: SubMsgResult::Failure { error: error.to_string() } };
        assert_eq!(reply(notice), Err(ContractError::UnexpectedFailureOutcome));
    }
}

#[test]
fn reply_rejects_a_success_without_data() {
    let notice = Reply { id: REPLY_ID, result: SubMsgResult::Success { data: None } };
    assert_eq!(reply(notice), Err(ContractError::MissingReplyData));
}

#[test]
fn reply_rejects_a_success_with_empty_data() {
    assert_eq!(reply(success(REPLY_ID, b"")), Err(ContractError::MissingReplyData));
}

#[test]
fn reply_response_holds_the_data_and_its_text() {
    let response = reply_response(vec![1, 2, 3], "AQID".to_string());
    assert_eq!(
        response,
        Response {
            messages: vec![],
            attributes: vec![attribute("reply_data", "AQID")],
            data: Some(vec![1, 2, 3]),
        }
    );
}

#[test]
fn reply_data_attribute_decodes_to_the_data() {
    let data: Vec<u8> = (0..=255u8).collect();
    let response = reply(success(REPLY_ID, &data)).unwrap();
    let decoded = cosmwasm_std::Binary::from_base64(&response.attributes[0].value).unwrap();
    assert_eq!(decoded.as_slice(), data.as_slice());
}
