//! One message exchanged with the hub: tagged content (bytes or text), a
//! few system properties and a bag of application properties.
use crate::codes;
use vstd::prelude::*;
use vstd::slice::slice_to_vec;
use vstd::string::StringSliceAdditionalSpecFns;

verus! {

/// Status of the message operations.
#[derive(Debug, PartialEq, Eq, Clone, Copy, Structural)]
pub enum MessageResult {
    Success,
    InvalidArg,
    InvalidType,
    Error,
}

/// The content type of a message.
#[derive(Debug, PartialEq, Eq, Clone, Copy, Structural)]
pub enum ContentType {
    ByteArray,
    String,
    Unkown,
}

/// The message result that a native status code stands for; codes that the
/// SDK does not define count as `Error`.
pub fn map_message_result(result: u32) -> (r: MessageResult)
    ensures
        result == codes::IOTHUB_MESSAGE_OK ==> r == MessageResult::Success,
        result == codes::IOTHUB_MESSAGE_INVALID_ARG ==> r == MessageResult::InvalidArg,
        result == codes::IOTHUB_MESSAGE_INVALID_TYPE ==> r == MessageResult::InvalidType,
        result >= codes::IOTHUB_MESSAGE_ERROR ==> r == MessageResult::Error,
{
    if result == codes::IOTHUB_MESSAGE_OK {
        MessageResult::Success
    } else if result == codes::IOTHUB_MESSAGE_INVALID_ARG {
        MessageResult::InvalidArg
    } else if result == codes::IOTHUB_MESSAGE_INVALID_TYPE {
        MessageResult::InvalidType
    } else {
        MessageResult::Error
    }
}

/// `Ok(())` for the success code, otherwise the error it stands for.
pub fn map_message_result_to_result(result: u32) -> (r: Result<(), MessageResult>)
    ensures
        r is Ok <==> result == codes::IOTHUB_MESSAGE_OK,
        result == codes::IOTHUB_MESSAGE_INVALID_ARG ==> r == Err::<(), MessageResult>(MessageResult::InvalidArg),
        result == codes::IOTHUB_MESSAGE_INVALID_TYPE ==> r == Err::<(), MessageResult>(MessageResult::InvalidType),
        result >= codes::IOTHUB_MESSAGE_ERROR ==> r == Err::<(), MessageResult>(MessageResult::Error),
{
    if result == codes::IOTHUB_MESSAGE_OK {
        Ok(())
    } else {
        Err(map_message_result(result))
    }
}

/// The content type that a native content type code stands for.
pub fn map_content_type(code: u32) -> (r: ContentType)
    ensures
        code == codes::IOTHUBMESSAGE_BYTEARRAY ==> r == ContentType::ByteArray,
        code == codes::IOTHUBMESSAGE_STRING ==> r == ContentType::String,
        code >= codes::IOTHUBMESSAGE_UNKNOWN ==> r == ContentType::Unkown,
{
    if code == codes::IOTHUBMESSAGE_BYTEARRAY {
        ContentType::ByteArray
    } else if code == codes::IOTHUBMESSAGE_STRING {
        ContentType::String
    } else {
        ContentType::Unkown
    }
}

/// A text can be handed to the native layer only if it holds no NUL byte.
pub open spec fn encodable(b: Seq<u8>) -> bool {
    forall|i: int| 0 <= i < b.len() ==> b[i] != 0u8
}

fn is_encodable(s: &str) -> (r: bool)
    ensures
        r == encodable(s.spec_bytes()),
{
    let b = s.as_bytes();
    let mut i: usize = 0;
    while i < b.len()
        invariant
            b@ == s.spec_bytes(),
            0 <= i <= b@.len(),
            forall|j: int| 0 <= j < i ==> b@[j] != 0u8,
        decreases b@.len() - i,
    {
        if b[i] == 0u8 {
            return false;
        }
        i = i + 1;
    }
    true
}

/// The content of a message, fixed when it is made.
pub enum MessageContent {
    Bytes(Vec<u8>),
    Text(String),
}

/// The abstract content of a message.
pub enum ContentModel {
    Bytes(Seq<u8>),
    Text(Seq<char>),
}

/// One application property.
pub struct MessageProperty {
    pub name: String,
    pub value: String,
}

/// What a message holds, as mathematical values.
pub struct MessageModel {
    pub content: ContentModel,
    pub message_id: Option<Seq<char>>,
    pub correlation_id: Option<Seq<char>>,
    pub content_type: Option<Seq<char>>,
    pub content_encoding: Option<Seq<char>>,
    pub properties: Map<Seq<char>, Seq<char>>,
}

/// The application properties that a list of settings leaves, a later
/// setting of a name overriding an earlier one.
pub open spec fn property_map(ps: Seq<(Seq<char>, Seq<char>)>) -> Map<Seq<char>, Seq<char>>
    decreases ps.len(),
{
    if ps.len() == 0 {
        Map::empty()
    } else {
        property_map(ps.drop_last()).insert(ps.last().0, ps.last().1)
    }
}

pub open spec fn opt_view(o: Option<String>) -> Option<Seq<char>> {
    match o {
        Some(s) => Some(s@),
        None => None,
    }
}

/// An IoT hub message.
pub struct IotHubMessage {
    content: MessageContent,
    message_id: Option<String>,
    correlation_id: Option<String>,
    content_type: Option<String>,
    content_encoding: Option<String>,
    properties: Vec<MessageProperty>,
}

impl IotHubMessage {
    /// The property settings in the order they were made.
    pub closed spec fn settings(&self) -> Seq<(Seq<char>, Seq<char>)> {
        self.properties@.map_values(|p: MessageProperty| (p.name@, p.value@))
    }
}

impl View for IotHubMessage {
    type V = MessageModel;

    closed spec fn view(&self) -> MessageModel {
        MessageModel {
            content: match self.content {
                MessageContent::Bytes(b) => ContentModel::Bytes(b@),
                MessageContent::Text(s) => ContentModel::Text(s@),
            },
            message_id: opt_view(self.message_id),
            correlation_id: opt_view(self.correlation_id),
            content_type: opt_view(self.content_type),
            content_encoding: opt_view(self.content_encoding),
            properties: property_map(self.settings()),
        }
    }
}

proof fn lemma_property_map_later_wins(ps: Seq<(Seq<char>, Seq<char>)>, i: int, k: Seq<char>)
    requires
        0 <= i <= ps.len(),
        forall|j: int| i <= j < ps.len() ==> ps[j].0 != k,
    ensures
        property_map(ps).dom().contains(k) == property_map(ps.take(i)).dom().contains(k),
        property_map(ps).dom().contains(k) ==> property_map(ps)[k] == property_map(ps.take(i))[k],
    decreases ps.len(),
{
    if ps.len() > i {
        let q = ps.drop_last();
        assert(q.take(i) =~= ps.take(i));
        lemma_property_map_later_wins(q, i, k);
    } else {
        assert(ps.take(i) =~= ps);
    }
}

fn copy_optional(o: &Option<String>) -> (r: Option<String>)
    ensures
        opt_view(r) == opt_view(*o),
{
    match o {
        Some(s) => Some(s.clone()),
        None => None,
    }
}

fn lookup_optional(o: &Option<String>) -> (r: Result<String, ()>)
    ensures
        r is Ok <==> o is Some,
        r is Ok ==> r->Ok_0@ == o->Some_0@,
{
    match o {
        Some(s) => Ok(s.clone()),
        None => Err(()),
    }
}

fn checked_text(value: &str) -> (r: Result<String, MessageResult>)
    ensures
        r is Ok <==> encodable(value.spec_bytes()),
        r is Ok ==> r->Ok_0@ == value@,
        r is Err ==> r == Err::<String, MessageResult>(MessageResult::InvalidArg),
{
    if is_encodable(value) {
        Ok(value.to_owned())
    } else {
        Err(MessageResult::InvalidArg)
    }
}

impl IotHubMessage {
    /// A new message whose content is a copy of `byte_array`.
    pub fn from_bytearray(byte_array: &[u8]) -> (r: Result<Self, MessageResult>)
        ensures
            r is Ok,
            r->Ok_0@ == (MessageModel {
                content: ContentModel::Bytes(byte_array@),
                message_id: None,
                correlation_id: None,
                content_type: None,
                content_encoding: None,
                properties: Map::empty(),
            }),
    {
        let m = IotHubMessage {
            content: MessageContent::Bytes(slice_to_vec(byte_array)),
            message_id: None,
            correlation_id: None,
            content_type: None,
            content_encoding: None,
            properties: Vec::new(),
        };
        assert(m.settings() =~= Seq::<(Seq<char>, Seq<char>)>::empty());
        Ok(m)
    }

    /// A new message whose content is the text `source`; a text with a NUL
    /// byte cannot be encoded and is refused with `InvalidArg`.
    pub fn from_string(source: &str) -> (r: Result<Self, MessageResult>)
        ensures
            r is Ok <==> encodable(source.spec_bytes()),
            r is Err ==> r == Err::<Self, MessageResult>(MessageResult::InvalidArg),
            r is Ok ==> r->Ok_0@ == (MessageModel {
                content: ContentModel::Text(source@),
                message_id: None,
                correlation_id: None,
                content_type: None,
                content_encoding: None,
                properties: Map::empty(),
            }),
    {
        let text = checked_text(source)?;
        let m = IotHubMessage {
            content: MessageContent::Text(text),
            message_id: None,
            correlation_id: None,
            content_type: None,
            content_encoding: None,
            properties: Vec::new(),
        };
        assert(m.settings() =~= Seq::<(Seq<char>, Seq<char>)>::empty());
        Ok(m)
    }

    /// A new message equal to this one and independent of it.
    pub fn clone(&self) -> (r: Result<Self, MessageResult>)
        ensures
            r is Ok,
            r->Ok_0@ == self@,
    {
        let content = match &self.content {
            MessageContent::Bytes(b) => MessageContent::Bytes(slice_to_vec(b.as_slice())),
            MessageContent::Text(t) => MessageContent::Text(t.clone()),
        };
        let mut properties: Vec<MessageProperty> = Vec::new();
        let mut i: usize = 0;
        while i < self.properties.len()
            invariant
                0 <= i <= self.properties@.len(),
                properties@.len() == i,
                forall|j: int|
                    0 <= j < i ==> (#[trigger] properties@[j]).name@ == self.properties@[j].name@
                        && properties@[j].value@ == self.properties@[j].value@,
            decreases self.properties@.len() - i,
        {
            let p = &self.properties[i];
            properties.push(MessageProperty { name: p.name.clone(), value: p.value.clone() });
            i = i + 1;
        }
        let m = IotHubMessage {
            content,
            message_id: copy_optional(&self.message_id),
            correlation_id: copy_optional(&self.correlation_id),
            content_type: copy_optional(&self.content_type),
            content_encoding: copy_optional(&self.content_encoding),
            properties,
        };
        assert(m.settings() =~= self.settings());
        Ok(m)
    }

    /// The kind of content the message holds.
    pub fn get_content_type(&self) -> (r: ContentType)
        ensures
            r == (match self@.content {
                ContentModel::Bytes(_) => ContentType::ByteArray,
                ContentModel::Text(_) => ContentType::String,
            }),
    {
        match &self.content {
            MessageContent::Bytes(_) => ContentType::ByteArray,
            MessageContent::Text(_) => ContentType::String,
        }
    }

    /// A copy of the byte content; `InvalidType` for a text message.
    pub fn get_bytes(&self) -> (r: Result<Vec<u8>, MessageResult>)
        ensures
            match self@.content {
                ContentModel::Bytes(b) => r is Ok && r->Ok_0@ == b,
                ContentModel::Text(_) => r == Err::<Vec<u8>, MessageResult>(
                    MessageResult::InvalidType,
                ),
            },
    {
        match &self.content {
            MessageContent::Bytes(b) => Ok(slice_to_vec(b.as_slice())),
            MessageContent::Text(_) => Err(MessageResult::InvalidType),
        }
    }

    /// A copy of the text content; `InvalidType` for a byte message.
    pub fn get_string(&self) -> (r: Result<String, MessageResult>)
        ensures
            match self@.content {
                ContentModel::Text(t) => r is Ok && r->Ok_0@ == t,
                ContentModel::Bytes(_) => r == Err::<String, MessageResult>(
                    MessageResult::InvalidType,
                ),
            },
    {
        match &self.content {
            MessageContent::Text(t) => Ok(t.clone()),
            MessageContent::Bytes(_) => Err(MessageResult::InvalidType),
        }
    }

    /// Sets the content-type system property (RFC 2046 values).
    pub fn set_content_type_system_property(&mut self, content_type: &str) -> (r: Result<(), MessageResult>)
        ensures
            r is Ok <==> encodable(content_type.spec_bytes()),
            r is Err ==> r == Err::<(), MessageResult>(MessageResult::InvalidArg)
                && final(self)@ == old(self)@,
            r is Ok ==> final(self)@ == (MessageModel { content_type: Some(content_type@), ..old(self)@ }),
    {
        let v = checked_text(content_type)?;
        self.content_type = Some(v);
        Ok(())
    }

    /// The content-type system property, if set.
    pub fn get_content_type_system_property(&self) -> (r: Result<String, ()>)
        ensures
            r is Ok <==> self@.content_type is Some,
            r is Ok ==> Some(r->Ok_0@) == self@.content_type,
    {
        lookup_optional(&self.content_type)
    }

    /// Sets the content-encoding system property (RFC 2616 values).
    pub fn set_content_encoding_system_property(&mut self, content_encoding: &str) -> (r: Result<(), MessageResult>)
        ensures
            r is Ok <==> encodable(content_encoding.spec_bytes()),
            r is Err ==> r == Err::<(), MessageResult>(MessageResult::InvalidArg)
                && final(self)@ == old(self)@,
            r is Ok ==> final(self)@ == (MessageModel {
                content_encoding: Some(content_encoding@),
                ..old(self)@
            }),
    {
        let v = checked_text(content_encoding)?;
        self.content_encoding = Some(v);
        Ok(())
    }

    /// The content-encoding system property, if set.
    pub fn get_content_encoding_system_property(&self) -> (r: Result<String, ()>)
        ensures
            r is Ok <==> self@.content_encoding is Some,
            r is Ok ==> Some(r->Ok_0@) == self@.content_encoding,
    {
        lookup_optional(&self.content_encoding)
    }

    /// Sets the message id.
    pub fn set_message_id(&mut self, message_id: &str) -> (r: Result<(), MessageResult>)
        ensures
            r is Ok <==> encodable(message_id.spec_bytes()),
            r is Err ==> r == Err::<(), MessageResult>(MessageResult::InvalidArg)
                && final(self)@ == old(self)@,
            r is Ok ==> final(self)@ == (MessageModel { message_id: Some(message_id@), ..old(self)@ }),
    {
        let v = checked_text(message_id)?;
        self.message_id = Some(v);
        Ok(())
    }

    /// The message id, if set.
    pub fn get_message_id(&self) -> (r: Result<String, ()>)
        ensures
            r is Ok <==> self@.message_id is Some,
            r is Ok ==> Some(r->Ok_0@) == self@.message_id,
    {
        lookup_optional(&self.message_id)
    }

    /// Sets the correlation id.
    pub fn set_correlation_id(&mut self, correlation_id: &str) -> (r: Result<(), MessageResult>)
        ensures
            r is Ok <==> encodable(correlation_id.spec_bytes()),
            r is Err ==> r == Err::<(), MessageResult>(MessageResult::InvalidArg)
                && final(self)@ == old(self)@,
            r is Ok ==> final(self)@ == (MessageModel {
                correlation_id: Some(correlation_id@),
                ..old(self)@
            }),
    {
        let v = checked_text(correlation_id)?;
        self.correlation_id = Some(v);
        Ok(())
    }

    /// The correlation id, if set.
    pub fn get_correlation_id(&self) -> (r: Result<String, ()>)
        ensures
            r is Ok <==> self@.correlation_id is Some,
            r is Ok ==> Some(r->Ok_0@) == self@.correlation_id,
    {
        lookup_optional(&self.correlation_id)
    }

    /// Sets the application property `name` to `value`, replacing an earlier
    /// value. An empty name, or a name or value with a NUL byte, is refused
    /// with `InvalidArg`.
    pub fn set_property(&mut self, name: &str, value: &str) -> (r: Result<(), MessageResult>)
        ensures
            r is Ok <==> name@.len() > 0 && encodable(name.spec_bytes()) && encodable(
                value.spec_bytes(),
            ),
            r is Err ==> r == Err::<(), MessageResult>(MessageResult::InvalidArg)
                && final(self)@ == old(self)@,
            r is Ok ==> final(self)@ == (MessageModel {
                properties: old(self)@.properties.insert(name@, value@),
                ..old(self)@
            }),
    {
        if name.is_empty() {
            return Err(MessageResult::InvalidArg);
        }
        let n = checked_text(name)?;
        let v = checked_text(value)?;
        let ghost before = self.settings();
        self.properties.push(MessageProperty { name: n, value: v });
        assert(self.settings().drop_last() =~= before);
        Ok(())
    }

    /// The value of the application property `name`, if set.
    pub fn get_property(&self, name: &str) -> (r: Result<String, ()>)
        ensures
            r is Ok <==> self@.properties.dom().contains(name@),
            r is Ok ==> r->Ok_0@ == self@.properties[name@],
    {
        let key = name.to_owned();
        let ghost ps = self.settings();
        let mut i: usize = self.properties.len();
        while i > 0
            invariant
                0 <= i <= self.properties@.len(),
                ps == self.settings(),
                key@ == name@,
                forall|j: int| i <= j < ps.len() ==> ps[j].0 != key@,
            decreases i,
        {
            let p = &self.properties[i - 1];
            if p.name == key {
                proof {
                    lemma_property_map_later_wins(ps, i as int, key@);
                    let q = ps.take(i as int);
                    assert(q.drop_last() =~= ps.take(i - 1));
                    assert(q.last() == ps[i - 1]);
                }
                return Ok(p.value.clone());
            }
            i = i - 1;
        }
        proof {
            lemma_property_map_later_wins(ps, 0, key@);
            assert(ps.take(0) =~= Seq::<(Seq<char>, Seq<char>)>::empty());
        }
        Err(())
    }

    /// How many property settings the message carries, in the order they were
    /// made (a later setting of a name overrides an earlier one).
    pub fn property_count(&self) -> (r: usize)
        ensures
            r == self.settings().len(),
            self@.properties == property_map(self.settings()),
    {
        self.properties.len()
    }

    /// The `i`-th property setting, as a name and a value.
    pub fn property_at(&self, i: usize) -> (r: (String, String))
        requires
            i < self.settings().len(),
        ensures
            (r.0@, r.1@) == self.settings()[i as int],
    {
        let p = &self.properties[i];
        (p.name.clone(), p.value.clone())
    }
}

} // verus!
