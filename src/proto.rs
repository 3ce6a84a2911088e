//! The calls into prost, prost-reflect and serde_json that the gateway makes,
//! each behind a small trusted item. These crates parse and render protobuf
//! schemas and messages; the gateway's own logic stays in the other modules.
use vstd::prelude::*;
use prost::Message;
use prost_reflect::{DescriptorError, DescriptorPool, DynamicMessage, MessageDescriptor, MethodDescriptor, ServiceDescriptor};
use prost_types::FileDescriptorProto;
use std::sync::Arc;

verus! {

#[verifier::external_type_specification]
#[verifier::external_body]
pub struct ExDescriptorPool(DescriptorPool);

#[verifier::external_type_specification]
#[verifier::external_body]
pub struct ExServiceDescriptor(ServiceDescriptor);

#[verifier::external_type_specification]
#[verifier::external_body]
pub struct ExMethodDescriptor(MethodDescriptor);

#[verifier::external_type_specification]
#[verifier::external_body]
pub struct ExMessageDescriptor(MessageDescriptor);

#[verifier::external_type_specification]
#[verifier::external_body]
pub struct ExDynamicMessage(DynamicMessage);

#[verifier::external_type_specification]
#[verifier::external_body]
pub struct ExFileDescriptorProto(FileDescriptorProto);

#[verifier::external_type_specification]
#[verifier::external_body]
pub struct ExDescriptorError(DescriptorError);

#[verifier::external_type_specification]
#[verifier::external_body]
pub struct ExDecodeError(prost::DecodeError);

#[verifier::external_type_specification]
#[verifier::external_body]
pub struct ExJsonValue(serde_json::Value);

#[verifier::external_type_specification]
#[verifier::external_body]
pub struct ExJsonError(serde_json::Error);

/// The file descriptor that `bytes` encode, if they encode one.
pub uninterp spec fn decoded_proto(bytes: Seq<u8>) -> Option<FileDescriptorProto>;

/// The pool obtained by offering `files`, in order, to an empty pool; a
/// file the pool refuses is rolled back and leaves it as it was.
pub uninterp spec fn pool_of_files(files: Seq<FileDescriptorProto>) -> DescriptorPool;

/// `pool` accepts `file`: every name it references resolves and none clashes.
pub uninterp spec fn pool_accepts(pool: DescriptorPool, file: FileDescriptorProto) -> bool;

/// The services that `pool` declares, in pool order.
pub uninterp spec fn services_of(pool: DescriptorPool) -> Seq<ServiceDescriptor>;

/// The fully qualified name of a service, `package.Service`.
pub uninterp spec fn full_name_of(service: ServiceDescriptor) -> Seq<char>;

/// The methods of a service, in declaration order.
pub uninterp spec fn methods_of(service: ServiceDescriptor) -> Seq<MethodDescriptor>;

/// The short name of a method.
pub uninterp spec fn method_name_of(method: MethodDescriptor) -> Seq<char>;

/// The request message type of a method.
pub uninterp spec fn input_of(method: MethodDescriptor) -> MessageDescriptor;

/// The response message type of a method.
pub uninterp spec fn output_of(method: MethodDescriptor) -> MessageDescriptor;

/// `message` is a message of type `desc` that the canonical protobuf JSON
/// `json` reads as. Map fields are held in hash maps, so this is a relation:
/// the entries are fixed, not the order in which they are held.
pub uninterp spec fn json_reads_as(desc: MessageDescriptor, json: serde_json::Value, message: DynamicMessage) -> bool;

/// `bytes` is a wire encoding of `message`, with the entries of its map
/// fields in some order.
pub uninterp spec fn is_wire_encoding(message: DynamicMessage, bytes: Seq<u8>) -> bool;

/// `message` is a message of type `desc` that the wire bytes `bytes` decode
/// to; as for JSON, a relation up to the order of map entries.
pub uninterp spec fn wire_decodes_as(desc: MessageDescriptor, bytes: Seq<u8>, message: DynamicMessage) -> bool;

/// The canonical protobuf JSON rendering of a message, if it renders.
pub uninterp spec fn json_of(message: DynamicMessage) -> Option<serde_json::Value>;

/// Relies on `DescriptorPool::new`: an empty pool, to which no file has
/// been offered.
#[verifier::external_body]
pub(crate) fn new_pool() -> (r: DescriptorPool)
    ensures
        r == pool_of_files(Seq::empty()),
        services_of(r) == Seq::<ServiceDescriptor>::empty(),
{
    DescriptorPool::new()
}

/// Relies on `prost::Message::decode` for `FileDescriptorProto`: parses one
/// serialized file descriptor; the result depends on the bytes alone.
#[verifier::external_body]
pub(crate) fn decode_file_descriptor(bytes: &[u8]) -> (r: Result<FileDescriptorProto, prost::DecodeError>)
    ensures
        r is Ok <==> decoded_proto(bytes@) is Some,
        r matches Ok(f) ==> decoded_proto(bytes@) == Some(f),
{
    FileDescriptorProto::decode(bytes)
}

/// Relies on `DescriptorPool::add_file_descriptor_proto` (through
/// `build_files`): the file is added when the pool accepts it; on an error
/// the pool is rolled back to what it was.
#[verifier::external_body]
pub(crate) fn add_file(pool: &mut DescriptorPool, file: FileDescriptorProto) -> (r: Result<(), DescriptorError>)
    ensures
        r is Ok <==> pool_accepts(*old(pool), file),
        forall|fs: Seq<FileDescriptorProto>| *old(pool) == pool_of_files(fs) ==> *final(pool)
            == pool_of_files(fs.push(file)),
{
    pool.add_file_descriptor_proto(file)
}

/// Relies on `DescriptorPool::services`: every service the pool declares.
#[verifier::external_body]
pub(crate) fn pool_services(pool: &DescriptorPool) -> (r: Vec<ServiceDescriptor>)
    ensures
        r@ == services_of(*pool),
{
    pool.services().collect()
}

/// Relies on `ServiceDescriptor::full_name`: `package.Service`.
#[verifier::external_body]
pub(crate) fn service_full_name(service: &ServiceDescriptor) -> (r: String)
    ensures
        r@ == full_name_of(*service),
{
    service.full_name().to_string()
}

/// Relies on `ServiceDescriptor::methods`: the methods of one service.
#[verifier::external_body]
pub(crate) fn service_methods(service: &ServiceDescriptor) -> (r: Vec<MethodDescriptor>)
    ensures
        r@ == methods_of(*service),
{
    service.methods().collect()
}

/// Relies on `MethodDescriptor::name`: the short name of a method.
#[verifier::external_body]
pub(crate) fn method_name(method: &MethodDescriptor) -> (r: String)
    ensures
        r@ == method_name_of(*method),
{
    method.name().to_string()
}

/// Relies on `MethodDescriptor::input`: the request message type.
#[verifier::external_body]
pub(crate) fn method_input(method: &MethodDescriptor) -> (r: MessageDescriptor)
    ensures
        r == input_of(*method),
{
    method.input()
}

/// Relies on `MethodDescriptor::output`: the response message type.
#[verifier::external_body]
pub(crate) fn method_output(method: &MethodDescriptor) -> (r: MessageDescriptor)
    ensures
        r == output_of(*method),
{
    method.output()
}

/// Relies on `DynamicMessage::deserialize`: reads canonical protobuf JSON
/// into a message of type `desc`; whether it succeeds, and the fields it
/// sets, depend on its arguments alone.
#[verifier::external_body]
pub(crate) fn message_from_json(desc: MessageDescriptor, json: serde_json::Value) -> (r: Result<DynamicMessage, serde_json::Error>)
    ensures
        r is Ok <==> exists|m: DynamicMessage| #[trigger] json_reads_as(desc, json, m),
        r matches Ok(m) ==> json_reads_as(desc, json, m),
{
    DynamicMessage::deserialize(desc, json)
}

/// Relies on `prost::Message::encode_to_vec` for `DynamicMessage`: the wire
/// encoding of a message.
#[verifier::external_body]
pub(crate) fn encode_message(message: &DynamicMessage) -> (r: Vec<u8>)
    ensures
        is_wire_encoding(*message, r@),
{
    message.encode_to_vec()
}

/// Relies on `DynamicMessage::decode`: parses the wire encoding of a message
/// of type `desc`; whether it succeeds, and the fields it sets, depend on its
/// arguments alone.
#[verifier::external_body]
pub(crate) fn decode_message(desc: MessageDescriptor, bytes: &[u8]) -> (r: Result<DynamicMessage, prost::DecodeError>)
    ensures
        r is Ok <==> exists|m: DynamicMessage| #[trigger] wire_decodes_as(desc, bytes@, m),
        r matches Ok(m) ==> wire_decodes_as(desc, bytes@, m),
{
    DynamicMessage::decode(desc, bytes)
}

/// Relies on `serde_json::to_value` with `DynamicMessage`'s serializer:
/// renders a message as canonical protobuf JSON.
#[verifier::external_body]
pub(crate) fn message_to_json(message: &DynamicMessage) -> (r: Result<serde_json::Value, serde_json::Error>)
    ensures
        r is Ok <==> json_of(*message) is Some,
        r matches Ok(v) ==> json_of(*message) == Some(v),
{
    serde_json::to_value(message)
}

/// Relies on the derived `ServiceDescriptor::clone`: a descriptor is a
/// handle (a shared pointer to its pool and an index), and a clone is the
/// same handle.
#[verifier::external_body]
pub(crate) fn clone_service(s: &ServiceDescriptor) -> (r: ServiceDescriptor)
    ensures
        r == *s,
{
    s.clone()
}

/// Relies on the derived `MethodDescriptor::clone`: a descriptor is a
/// handle (its service's handle and an index), and a clone is the same
/// handle.
#[verifier::external_body]
pub(crate) fn clone_method(m: &MethodDescriptor) -> (r: MethodDescriptor)
    ensures
        r == *m,
{
    m.clone()
}

/// Relies on `Arc::clone`: another pointer to the same allocation.
#[verifier::external_body]
pub(crate) fn share<T>(a: &Arc<T>) -> (r: Arc<T>)
    ensures
        r == *a,
{
    Arc::clone(a)
}

} // verus!
