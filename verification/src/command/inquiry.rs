//! INQUIRY: ask the device what it is.

use vstd::prelude::*;
use core::marker::PhantomData;
use crate::bitfield::{pack_vec, packed, width_upto, zeros, Field};
use crate::command::{chunk, zeroed, Command};
use crate::data_direction::DataDirection;
use crate::data_wrapper::{FlexibleStruct, Wire};
use crate::error::{BoundCheckError, Error};
use crate::result_data::ResultData;
use crate::scsi::Scsi;

verus! {

pub const OPERATION_CODE: u8 = 0x12;

pub const MAX_ALLOCATION_LENGTH: u16 = 0xFFFF;

/// The options of an inquiry. They are checked when the command is issued, not
/// when they are set.
#[derive(Clone, Copy, Debug)]
pub struct InquiryCommand {
    /// Whether a page of vital product data is asked for.
    pub enable_vital_product_data: bool,
    /// The page that is asked for; zero where none is.
    pub page_code: u8,
    /// The number of bytes that `issue` asks for.
    pub allocation_length: u16,
    pub control: u8,
}

impl InquiryCommand {
    /// An inquiry for the standard inquiry data, into no room.
    pub fn new() -> (r: Self)
        ensures
            r.enable_vital_product_data == false,
            r.page_code == 0,
            r.allocation_length == 0,
            r.control == 0,
    {
        InquiryCommand {
            enable_vital_product_data: false,
            page_code: 0,
            allocation_length: 0,
            control: 0,
        }
    }

    /// Sets the number of bytes that `issue` asks for.
    pub fn allocation_length(&mut self, value: u16) -> (r: &mut Self)
        ensures
            *r == (InquiryCommand { allocation_length: value, ..*old(self) }),
            *final(self) == *final(r),
    {
        self.allocation_length = value;
        self
    }

    /// Asks for a page of vital product data, or for the standard inquiry
    /// data where `value` is `None`.
    pub fn page_code(&mut self, value: Option<u8>) -> (r: &mut Self)
        ensures
            *r == (InquiryCommand {
                page_code: match value {
                    Some(page) => page,
                    None => 0,
                },
                enable_vital_product_data: value is Some,
                ..*old(self)
            }),
            *final(self) == *final(r),
    {
        match value {
            Some(page) => {
                self.page_code = page;
                self.enable_vital_product_data = true;
            },
            None => {
                self.page_code = 0;
                self.enable_vital_product_data = false;
            },
        }
        self
    }

    /// The most elements of type `E` that an answer with a header of type `B`
    /// has room for: the allocation length has sixteen bits.
    pub open spec fn max_element<B: Wire, E: Wire>() -> nat {
        ((MAX_ALLOCATION_LENGTH - B::wire_size()) / ((if E::wire_size()
            == 0 { 1 } else { E::wire_size() }) as int)) as nat
    }

    /// What `issue_flex` finds wrong, if anything: more elements than the
    /// answer has room for.
    pub open spec fn issue_check<B: Wire, E: Wire>(&self, element_length: usize) -> Option<Error> {
        if element_length > Self::max_element::<B, E>() {
            Some(
                Error::ArgumentOutOfBounds(
                    BoundCheckError {
                        name: "Expected element length",
                        max: Self::max_element::<B, E>() as u64,
                        given: element_length as u64,
                    },
                ),
            )
        } else {
            None
        }
    }

    /// The descriptor block of INQUIRY: six bytes. The allocation length is the
    /// size of the answer that is asked for.
    pub open spec fn layout<B: Wire, E: Wire>(&self, element_length: usize) -> Seq<Field> {
        seq![
            Field { width: 8, value: OPERATION_CODE as u64 },
            Field { width: 6, value: 0 },
            Field { width: 1, value: 0 },
            Field { width: 1, value: self.enable_vital_product_data as u64 },
            Field { width: 8, value: self.page_code as u64 },
            Field { width: 16, value: allocation_length_spec::<B, E>(element_length) as u64 },
            Field { width: 8, value: self.control as u64 },
        ]
    }

    /// Checks that an answer of a header of type `B` and `element_length`
    /// elements of type `E` fits the allocation length, and packs the
    /// descriptor block, which asks for exactly that answer. The header must
    /// itself fit the allocation length.
    pub fn issue_flex<B: Wire, E: Wire>(&self, element_length: usize) -> (r: Result<
        ThisCommand<B, E>,
        Error,
    >)
        requires
            B::wire_size() <= MAX_ALLOCATION_LENGTH,
        ensures
            match self.issue_check::<B, E>(element_length) {
                Some(e) => r == Err::<ThisCommand<B, E>, Error>(e),
                None => r matches Ok(c) && c.command_buffer@ == packed(
                    self.layout::<B, E>(element_length),
                ) && c.element_length == element_length && c.exact(),
            },
    {
        let header = B::size();
        let per: usize = if E::size() == 0 {
            1
        } else {
            E::size()
        };
        let max_element = (MAX_ALLOCATION_LENGTH as usize - header) / per;
        if element_length > max_element {
            return Err(
                Error::ArgumentOutOfBounds(
                    BoundCheckError {
                        name: "Expected element length",
                        max: max_element as u64,
                        given: element_length as u64,
                    },
                ),
            );
        }
        proof {
            let room = (MAX_ALLOCATION_LENGTH - header) as int;
            let p = per as int;
            let n = element_length as int;
            vstd::arithmetic::div_mod::lemma_fundamental_div_mod(room, p);
            vstd::arithmetic::div_mod::lemma_mod_bound(room, p);
            assert(n * p <= (room / p) * p) by (nonlinear_arith)
                requires
                    0 <= n <= room / p,
                    0 < p,
            ;
            assert(p * (room / p) == (room / p) * p) by (nonlinear_arith);
            assert(n * E::wire_size() <= n * p) by (nonlinear_arith)
                requires
                    0 <= n,
                    E::wire_size() <= p,
            ;
            assert(0 <= n * E::wire_size()) by (nonlinear_arith)
                requires
                    0 <= n,
            ;
            assert(n * E::wire_size() == E::wire_size() * n) by (nonlinear_arith);
        }
        let allocation_length = header + E::size() * element_length;
        reveal_with_fuel(width_upto, 8);
        let command_buffer = pack_vec::<6>(
            &[
                Field { width: 8, value: OPERATION_CODE as u64 },
                Field { width: 6, value: 0 },
                Field { width: 1, value: 0 },
                Field { width: 1, value: self.enable_vital_product_data as u64 },
                Field { width: 8, value: self.page_code as u64 },
                Field { width: 16, value: allocation_length as u64 },
                Field { width: 8, value: self.control as u64 },
            ],
        );
        Ok(ThisCommand { command_buffer, element_length, phantom_data: PhantomData })
    }

    /// As `issue_flex`, for an answer that is wanted as a header and a vector
    /// of elements.
    pub fn issue_generic<Body: Wire, Element: Wire>(&self, element_length: usize) -> (r: Result<
        GenericCommand<Body, Element>,
        Error,
    >)
        requires
            Body::wire_size() <= MAX_ALLOCATION_LENGTH,
        ensures
            match self.issue_check::<Body, Element>(element_length) {
                Some(e) => r == Err::<GenericCommand<Body, Element>, Error>(e),
                None => r matches Ok(c) && c.inner.command_buffer@ == packed(
                    self.layout::<Body, Element>(element_length),
                ) && c.inner.element_length == element_length && c.inner.exact(),
            },
    {
        Ok(GenericCommand { inner: self.issue_flex::<Body, Element>(element_length)? })
    }

    /// As `issue_flex`, for an answer that is wanted as plain bytes, as many
    /// as the allocation length that was set.
    pub fn issue(&self) -> (r: Result<BytesCommand, Error>)
        ensures
            match self.issue_check::<(), u8>(self.allocation_length as usize) {
                Some(e) => r == Err::<BytesCommand, Error>(e),
                None => r matches Ok(c) && c.inner.command_buffer@ == packed(
                    self.layout::<(), u8>(self.allocation_length as usize),
                ) && c.inner.element_length == self.allocation_length && c.inner.exact(),
            },
    {
        Ok(BytesCommand { inner: self.issue_flex::<(), u8>(self.allocation_length as usize)? })
    }
}

impl<H> Scsi<H> {
    /// An inquiry with its options at their defaults.
    pub fn inquiry(&self) -> (r: InquiryCommand)
        ensures
            r.enable_vital_product_data == false,
            r.page_code == 0,
            r.allocation_length == 0,
            r.control == 0,
    {
        InquiryCommand::new()
    }
}

/// The allocation length of an answer of a header of type `B` and `n`
/// elements of type `E`: its size, as far as sixteen bits hold it.
pub open spec fn allocation_length_spec<B: Wire, E: Wire>(n: usize) -> u16 {
    if FlexibleStruct::<B, E>::start(n as int) > MAX_ALLOCATION_LENGTH {
        MAX_ALLOCATION_LENGTH
    } else {
        FlexibleStruct::<B, E>::start(n as int) as u16
    }
}

/// An inquiry that passed its checks: the packed descriptor block, and the shape
/// of the answer that it asks for.
#[derive(Debug)]
pub struct ThisCommand<Body, Element> {
    pub command_buffer: Vec<u8>,
    pub element_length: usize,
    pub phantom_data: PhantomData<(Body, Element)>,
}

impl<Body: Wire, Element: Wire> ThisCommand<Body, Element> {
    /// Whether the answer that is asked for fits the allocation length, as
    /// it does for every command that `issue_flex` made.
    pub open spec fn exact(&self) -> bool {
        FlexibleStruct::<Body, Element>::start(self.element_length as int) <= MAX_ALLOCATION_LENGTH
    }

    /// The number of bytes of the answer, as far as sixteen bits hold it.
    fn allocation_length(&self) -> (r: u16)
        ensures
            r == allocation_length_spec::<Body, Element>(self.element_length),
    {
        let limit = MAX_ALLOCATION_LENGTH as usize;
        let header = Body::size();
        let element = Element::size();
        proof {
            let n = self.element_length as int;
            let e = element as int;
            assert(0 <= e * n) by (nonlinear_arith)
                requires
                    0 <= e,
                    0 <= n,
            ;
            assert(e * n == n * e) by (nonlinear_arith);
            assert(e == 0 || n == 0 ==> e * n == 0) by (nonlinear_arith);
            if element > 0 && self.element_length > limit {
                assert(e * n > limit) by (nonlinear_arith)
                    requires
                        e >= 1,
                        n > limit,
                ;
            }
            if self.element_length > 0 && element > limit {
                assert(e * n > limit) by (nonlinear_arith)
                    requires
                        n >= 1,
                        e > limit,
                ;
            }
            if element <= limit && self.element_length <= limit {
                assert(e * n <= limit * limit) by (nonlinear_arith)
                    requires
                        0 <= e <= limit,
                        0 <= n <= limit,
                ;
            }
        }
        if header > limit {
            MAX_ALLOCATION_LENGTH
        } else if element == 0 || self.element_length == 0 {
            header as u16
        } else if element > limit || self.element_length > limit {
            MAX_ALLOCATION_LENGTH
        } else {
            let room = element as u64 * self.element_length as u64;
            if room > (limit - header) as u64 {
                MAX_ALLOCATION_LENGTH
            } else {
                (header as u64 + room) as u16
            }
        }
    }
}

impl<Body: Wire, Element: Wire> Command for ThisCommand<Body, Element> {
    type ReturnType = Result<FlexibleStruct<Body, Element>, Error>;

    open spec fn direction_spec(&self) -> DataDirection {
        DataDirection::FromDevice
    }

    open spec fn command_spec(&self) -> Seq<u8> {
        self.command_buffer@
    }

    open spec fn data_spec(&self) -> Seq<u8> {
        zeros(allocation_length_spec::<Body, Element>(self.element_length) as nat)
    }

    open spec fn data_size_spec(&self) -> u32 {
        allocation_length_spec::<Body, Element>(self.element_length) as u32
    }

    fn direction(&self) -> (r: DataDirection) {
        DataDirection::FromDevice
    }

    fn command(&self) -> (r: Vec<u8>) {
        crate::command::duplicate(self.command_buffer.as_slice())
    }

    fn data(&self) -> (r: Vec<u8>) {
        zeroed(self.allocation_length() as usize)
    }

    fn data_size(&self) -> (r: u32) {
        self.allocation_length() as u32
    }

    /// The answer as a header and a row of elements, unless the transport or
    /// the device reported a failure. The bytes that came back are cut or
    /// filled up with zeros to the size that was asked for. A command that
    /// asks for more than the allocation length can hold, which `issue_flex`
    /// never makes, is refused as a bad argument.
    fn process_result(&self, result: ResultData) -> (r: Result<
        FlexibleStruct<Body, Element>,
        Error,
    >)
        ensures
            match r {
                Ok(record) => result.passes() && self.exact() && record.wf()
                    && FlexibleStruct::<Body, Element>::wire_of(record@) == chunk(
                    result.data@,
                    FlexibleStruct::<Body, Element>::start(self.element_length as int) as nat,
                    0,
                ) && record@.elements.len() == self.element_length,
                Err(e) => if result.passes() {
                    !self.exact() && e == Error::BadArgument("element length is out of bounds")
                } else {
                    result.checked(Err(e))
                },
            },
    {
        result.check_errors()?;
        let size = self.allocation_length() as usize;
        let mut bytes = result.data;
        bytes.resize(size, 0);
        proof {
            let data = result.data@;
            assert(bytes@ =~= chunk(data, size as nat, 0)) by {
                if size > data.len() {
                    assert forall|i: int| 0 <= i < data.len() implies bytes@[i] == data[i] by {
                        assert(bytes@.subrange(0, data.len() as int)[i] == data[i]);
                    }
                }
            }
        }
        match FlexibleStruct::<Body, Element>::from_bytes(bytes, self.element_length) {
            Some(record) => Ok(record),
            None => Err(Error::BadArgument("element length is out of bounds")),
        }
    }
}

/// An inquiry whose answer is wanted as a header and a vector of elements.
#[derive(Debug)]
pub struct GenericCommand<Body, Element> {
    pub inner: ThisCommand<Body, Element>,
}

impl<Body: Wire, Element: Wire> Command for GenericCommand<Body, Element> {
    type ReturnType = Result<(Body, Vec<Element>), Error>;

    open spec fn direction_spec(&self) -> DataDirection {
        self.inner.direction_spec()
    }

    open spec fn command_spec(&self) -> Seq<u8> {
        self.inner.command_spec()
    }

    open spec fn data_spec(&self) -> Seq<u8> {
        self.inner.data_spec()
    }

    open spec fn data_size_spec(&self) -> u32 {
        self.inner.data_size_spec()
    }

    fn direction(&self) -> (r: DataDirection) {
        self.inner.direction()
    }

    fn command(&self) -> (r: Vec<u8>) {
        self.inner.command()
    }

    fn data(&self) -> (r: Vec<u8>) {
        self.inner.data()
    }

    fn data_size(&self) -> (r: u32) {
        self.inner.data_size()
    }

    /// The header and the elements of the answer, decoded from the bytes
    /// that came back cut or filled up with zeros to the size that was asked
    /// for, unless the transport or the device reported a failure.
    fn process_result(&self, result: ResultData) -> (r: Result<(Body, Vec<Element>), Error>)
        ensures
            match r {
                Ok((body, elements)) => result.passes() && self.inner.exact() && exists|
                    view: crate::data_wrapper::FlexibleView<Body, Element>,
                |
                    view.body == body && view.elements == elements@ && elements@.len()
                        == self.inner.element_length && FlexibleStruct::<
                        Body,
                        Element,
                    >::wire_of(view) == chunk(
                        result.data@,
                        FlexibleStruct::<Body, Element>::start(
                            self.inner.element_length as int,
                        ) as nat,
                        0,
                    ),
                Err(e) => if result.passes() {
                    !self.inner.exact() && e == Error::BadArgument(
                        "element length is out of bounds",
                    )
                } else {
                    result.checked(Err(e))
                },
            },
    {
        let record = self.inner.process_result(result)?;
        let body = record.get_body();
        let elements = record.elements_to_vec();
        assert(record@.body == body && record@.elements == elements@);
        Ok((body, elements))
    }
}

/// An inquiry whose answer is wanted as plain bytes.
#[derive(Debug)]
pub struct BytesCommand {
    pub inner: ThisCommand<(), u8>,
}

impl Command for BytesCommand {
    type ReturnType = Result<Vec<u8>, Error>;

    open spec fn direction_spec(&self) -> DataDirection {
        self.inner.direction_spec()
    }

    open spec fn command_spec(&self) -> Seq<u8> {
        self.inner.command_spec()
    }

    open spec fn data_spec(&self) -> Seq<u8> {
        self.inner.data_spec()
    }

    open spec fn data_size_spec(&self) -> u32 {
        self.inner.data_size_spec()
    }

    fn direction(&self) -> (r: DataDirection) {
        self.inner.direction()
    }

    fn command(&self) -> (r: Vec<u8>) {
        self.inner.command()
    }

    fn data(&self) -> (r: Vec<u8>) {
        self.inner.data()
    }

    fn data_size(&self) -> (r: u32) {
        self.inner.data_size()
    }

    /// The bytes of the answer: those that came back, cut or filled up with
    /// zeros to the number that was asked for, unless the transport or the
    /// device reported a failure.
    fn process_result(&self, result: ResultData) -> (r: Result<Vec<u8>, Error>)
        ensures
            match r {
                Ok(bytes) => result.passes() && self.inner.exact() && bytes@ == chunk(
                    result.data@,
                    self.inner.element_length as nat,
                    0,
                ),
                Err(e) => if result.passes() {
                    !self.inner.exact() && e == Error::BadArgument(
                        "element length is out of bounds",
                    )
                } else {
                    result.checked(Err(e))
                },
            },
    {
        let record = self.inner.process_result(result)?;
        let bytes = crate::command::duplicate(record.as_bytes());
        proof {
            let n = self.inner.element_length as int;
            assert(n * 1 == n) by (nonlinear_arith);
        }
        Ok(bytes)
    }
}

} // verus!
