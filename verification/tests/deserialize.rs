//! The sample payload of a preprint, as the remote API delivers it.

use serde_json::Value;
use zotero_data::codec::Wire;
use zotero_data::item::item_data::preprint::PreprintData;
use zotero_data::item::{Creator, CreatorName};
use zotero_data::json::{Json, Member};
use zotero_data::shared_fields::Tag;

const PREPRINT_JSON: &str = r#"{
  "data": {
    "DOI": "",
    "abstractNote": "Artiﬁcial intelligence (AI) researchers have been developing and reﬁning large language models (LLMs) that exhibit remarkable capabilities across a variety of domains and tasks, challenging our understanding of learning and cognition. The latest model developed by OpenAI, GPT-4 [Ope23], was trained using an unprecedented scale of compute and data. In this paper, we report on our investigation of an early version of GPT-4, when it was still in active development by OpenAI. We contend that (this early version of) GPT4 is part of a new cohort of LLMs (along with ChatGPT and Google’s PaLM for example) that exhibit more general intelligence than previous AI models. We discuss the rising capabilities and implications of these models. We demonstrate that, beyond its mastery of language, GPT-4 can solve novel and diﬃcult tasks that span mathematics, coding, vision, medicine, law, psychology and more, without needing any special prompting. Moreover, in all of these tasks, GPT-4’s performance is strikingly close to human-level performance, and often vastly surpasses prior models such as ChatGPT. Given the breadth and depth of GPT-4’s capabilities, we believe that it could reasonably be viewed as an early (yet still incomplete) version of an artiﬁcial general intelligence (AGI) system. In our exploration of GPT-4, we put special emphasis on discovering its limitations, and we discuss the challenges ahead for advancing towards deeper and more comprehensive versions of AGI, including the possible need for pursuing a new paradigm that moves beyond next-word prediction. We conclude with reﬂections on societal inﬂuences of the recent technological leap and future research directions.",
    "accessDate": "2023-03-25T16:54:59Z",
    "archive": "",
    "archiveID": "arXiv:2303.12712",
    "archiveLocation": "",
    "callNumber": "",
    "citationKey": "",
    "collections": [],
    "creators": [
      {
        "creatorType": "author",
        "firstName": "Sébastien",
        "lastName": "Bubeck"
      },
      {
        "creatorType": "author",
        "firstName": "Varun",
        "lastName": "Chandrasekaran"
      },
      {
        "creatorType": "author",
        "firstName": "Ronen",
        "lastName": "Eldan"
      },
      {
        "creatorType": "author",
        "firstName": "Johannes",
        "lastName": "Gehrke"
      },
      {
        "creatorType": "author",
        "firstName": "Eric",
        "lastName": "Horvitz"
      },
      {
        "creatorType": "author",
        "firstName": "Ece",
        "lastName": "Kamar"
      },
      {
        "creatorType": "author",
        "firstName": "Peter",
        "lastName": "Lee"
      },
      {
        "creatorType": "author",
        "firstName": "Yin Tat",
        "lastName": "Lee"
      },
      {
        "creatorType": "author",
        "firstName": "Yuanzhi",
        "lastName": "Li"
      },
      {
        "creatorType": "author",
        "firstName": "Scott",
        "lastName": "Lundberg"
      },
      {
        "creatorType": "author",
        "firstName": "Harsha",
        "lastName": "Nori"
      },
      {
        "creatorType": "author",
        "firstName": "Hamid",
        "lastName": "Palangi"
      },
      {
        "creatorType": "author",
        "firstName": "Marco Tulio",
        "lastName": "Ribeiro"
      },
      {
        "creatorType": "author",
        "firstName": "Yi",
        "lastName": "Zhang"
      }
    ],
    "date": "2023-03-22",
    "dateAdded": "2023-03-25T16:54:59Z",
    "dateModified": "2023-03-25T16:55:11Z",
    "deleted": 1,
    "extra": "arXiv:2303.12712 [cs]",
    "genre": "",
    "itemType": "preprint",
    "key": "HPXL75GC",
    "language": "en",
    "libraryCatalog": "arXiv.org",
    "place": "",
    "relations": {},
    "repository": "arXiv",
    "rights": "",
    "series": "",
    "seriesNumber": "",
    "shortTitle": "Sparks of Artificial General Intelligence",
    "tags": [
      {
        "tag": "Computer Science - Artificial Intelligence",
        "type": 1
      },
      {
        "tag": "Computer Science - Computation and Language",
        "type": 1
      },
      {
        "tag": "plato-read"
      }
    ],
    "title": "Sparks of Artificial General Intelligence: Early experiments with GPT-4",
    "url": "http://arxiv.org/abs/2303.12712",
    "version": 355
  },
  "key": "HPXL75GC",
  "library": {
    "id": 8071408,
    "links": {
      "alternate": {
        "href": "https://www.zotero.org/ju6ge",
        "type": "text/html"
      }
    },
    "name": "ju6ge",
    "type": "user"
  },
  "links": {
    "alternate": {
      "href": "https://www.zotero.org/ju6ge/items/HPXL75GC",
      "type": "text/html"
    },
    "self": {
      "href": "https://api.zotero.org/users/8071408/items/HPXL75GC",
      "type": "application/json"
    }
  },
  "meta": {
    "creatorSummary": "Bubeck et al.",
    "numChildren": 1,
    "parsedDate": "2023-03-22"
  },
  "version": 355
}
"#;

fn json_of(value: &Value) -> Json {
    match value {
        Value::Null => Json::Null,
        Value::Bool(flag) => Json::Bool(*flag),
        Value::Number(number) => match number.as_i64() {
            Some(n) => Json::Int(n),
            None => Json::Real(number.to_string()),
        },
        Value::String(text) => Json::Text(text.clone()),
        Value::Array(items) => Json::List(items.iter().map(json_of).collect()),
        Value::Object(members) => Json::Object(
            members
                .iter()
                .map(|(name, value)| Member { name: name.clone(), value: json_of(value) })
                .collect(),
        ),
    }
}

fn value_of(json: &Json) -> Value {
    match json {
        Json::Null => Value::Null,
        Json::Bool(flag) => Value::Bool(*flag),
        Json::Int(n) => Value::from(*n),
        Json::Real(text) => serde_json::from_str(text).unwrap(),
        Json::Text(text) => Value::String(text.clone()),
        Json::List(items) => Value::Array(items.iter().map(value_of).collect()),
        Json::Object(members) => Value::Object(
            members.iter().map(|member| (member.name.clone(), value_of(&member.value))).collect(),
        ),
    }
}

fn sample_data() -> Value {
    let all_fields: Value = serde_json::from_str(PREPRINT_JSON).unwrap();
    all_fields["data"].clone()
}

fn author(first_name: &str, last_name: &str) -> Creator {
    Creator {
        creator_type: "author".to_string(),
        name: CreatorName::Person {
            first_name: first_name.to_string(),
            last_name: last_name.to_string(),
        },
    }
}

#[test]
fn deserialize_preprint() {
    let data = sample_data();
    let record = PreprintData::decode(&json_of(&data)).unwrap();

    assert_eq!(record.key, "HPXL75GC");
    assert_eq!(
        record.title,
        "Sparks of Artificial General Intelligence: Early experiments with GPT-4"
    );
    assert_eq!(record.item_type, "preprint");
    assert_eq!(record.rights, "");
    assert_eq!(
        record.creators,
        vec![
            author("S\u{e9}bastien", "Bubeck"),
            author("Varun", "Chandrasekaran"),
            author("Ronen", "Eldan"),
            author("Johannes", "Gehrke"),
            author("Eric", "Horvitz"),
            author("Ece", "Kamar"),
            author("Peter", "Lee"),
            author("Yin Tat", "Lee"),
            author("Yuanzhi", "Li"),
            author("Scott", "Lundberg"),
            author("Harsha", "Nori"),
            author("Hamid", "Palangi"),
            author("Marco Tulio", "Ribeiro"),
            author("Yi", "Zhang"),
        ]
    );
    assert_eq!(record.creators.len(), 14);
    assert_eq!(
        record.tags,
        vec![
            Tag {
                tag: "Computer Science - Artificial Intelligence".to_string(),
                tag_type: Some(1),
            },
            Tag {
                tag: "Computer Science - Computation and Language".to_string(),
                tag_type: Some(1),
            },
            Tag { tag: "plato-read".to_string(), tag_type: None },
        ]
    );
    assert_eq!(record.tags.len(), 3);
    assert_eq!(record.tags[2].tag_type, None);

    let written = value_of(&record.encode());
    let members = written.as_object().unwrap();
    assert!(!members.contains_key("rights"));
    assert_eq!(members.len(), 5);
    assert_eq!(written["key"], data["key"]);
    assert_eq!(written["title"], data["title"]);
    assert_eq!(written["itemType"], data["itemType"]);
    assert_eq!(written["creators"], data["creators"]);
    assert_eq!(written["tags"], data["tags"]);
    assert_eq!(written["creators"].as_array().unwrap().len(), 14);
    assert_eq!(written["tags"].as_array().unwrap().len(), 3);
}

#[test]
fn sample_payload_decodes_the_same_without_its_other_members() {
    let data = sample_data();
    let mut declared = serde_json::Map::new();
    for name in ["key", "title", "itemType", "creators", "rights", "tags"] {
        declared.insert(name.to_string(), data[name].clone());
    }
    let from_all = PreprintData::decode(&json_of(&data)).unwrap();
    let from_declared = PreprintData::decode(&json_of(&Value::Object(declared))).unwrap();
    assert_eq!(from_all, from_declared);
}

#[test]
fn payload_in_wire_form_is_written_back_as_it_came() {
    let text = r#"{
        "key": "ABCD2345",
        "title": "On Round Trips",
        "itemType": "preprint",
        "creators": [
            {"creatorType": "author", "firstName": "Ada", "lastName": "Lovelace"},
            {"creatorType": "contributor", "name": "Analytical Society"},
            {"creatorType": "editor"},
            {"creatorType": "author", "firstName": "", "lastName": "Babbage"}
        ],
        "rights": "CC BY 4.0",
        "tags": [{"tag": "first", "type": 1}, {"tag": "second"}, {"tag": ""}]
    }"#;
    let payload: Value = serde_json::from_str(text).unwrap();
    let record = PreprintData::decode(&json_of(&payload)).unwrap();
    assert_eq!(value_of(&record.encode()), payload);
}

#[test]
fn written_record_parses_as_json_text() {
    let mut record = PreprintData::default();
    record.title = "A \"quoted\" title".to_string();
    record.tags = vec![Tag { tag: "t".to_string(), tag_type: Some(0) }];
    let text = serde_json::to_string(&value_of(&record.encode())).unwrap();
    let parsed: Value = serde_json::from_str(&text).unwrap();
    assert_eq!(PreprintData::decode(&json_of(&parsed)).unwrap(), record);
}

#[test]
fn number_that_is_no_integer_is_a_mismatch_in_a_declared_member() {
    let payload: Value = serde_json::from_str(r#"{"tags": [{"tag": "t", "type": 1.5}]}"#).unwrap();
    let fault = PreprintData::decode(&json_of(&payload)).unwrap_err();
    assert_eq!(fault.path.len(), 3);
    let other: Value = serde_json::from_str(r#"{"deleted": 1.5, "title": "kept"}"#).unwrap();
    assert_eq!(PreprintData::decode(&json_of(&other)).unwrap().title, "kept");
}
