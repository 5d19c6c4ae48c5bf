//! Libraries and their functions: what the shader compiler hands back.

use vstd::prelude::*;
use vstd::string::StringExecFns;
use crate::driver::Driver;
use crate::driver::Payload;
use crate::error::MetalError;
use crate::handle::Handle;
use crate::laws::lemma_leads_to_itself;
use crate::model::ObjectKind;
use crate::model::ObjectView;
use crate::model::Ownership;
use crate::model::PayloadView;
use crate::ownership::lemma_owned_names;

verus! {

/// A handle to a function of a library.
#[derive(Debug, PartialEq, Eq)]
pub struct MTLFunction(pub Handle);

/// A handle to a library.
#[derive(Debug, PartialEq, Eq)]
pub struct MTLLibrary(pub Handle);

/// How a library is to be compiled.
#[derive(Copy, Clone, Debug, PartialEq, Eq, Structural)]
pub struct MTLCompileOptions {
    /// Whether arithmetic may be rearranged for speed.
    pub fast_math_enabled: bool,
    /// The version of the shading language.
    pub language_version: u64,
    /// The dictionary of macros, as the number of its object; 0 for none.
    pub preprocessor_macros: u64,
}

impl MTLCompileOptions {
    /// The options as they are before anything is set.
    pub open spec fn initial() -> MTLCompileOptions {
        MTLCompileOptions { fast_math_enabled: true, language_version: 0, preprocessor_macros: 0 }
    }

    /// Options with nothing set.
    pub fn new() -> (options: MTLCompileOptions)
        ensures
            options == MTLCompileOptions::initial(),
    {
        MTLCompileOptions { fast_math_enabled: true, language_version: 0, preprocessor_macros: 0 }
    }

    /// Whether arithmetic may be rearranged for speed.
    pub fn is_fast_math_enabled(&self) -> (enabled: bool)
        ensures
            enabled == self.fast_math_enabled,
    {
        self.fast_math_enabled
    }

    /// Sets whether arithmetic may be rearranged for speed.
    pub fn set_fast_math_enabled(&mut self, enabled: bool)
        ensures
            *final(self) == (MTLCompileOptions { fast_math_enabled: enabled, ..*old(self) }),
    {
        self.fast_math_enabled = enabled;
    }

    /// The version of the shading language.
    pub fn get_language_version(&self) -> (version: u64)
        ensures
            version == self.language_version,
    {
        self.language_version
    }

    /// Sets the version of the shading language.
    pub fn set_language_version(&mut self, version: u64)
        ensures
            *final(self) == (MTLCompileOptions { language_version: version, ..*old(self) }),
    {
        self.language_version = version;
    }

    /// The dictionary of macros, as the number of its object; 0 for none.
    pub fn get_preprocessor_macros(&self) -> (macros: u64)
        ensures
            macros == self.preprocessor_macros,
    {
        self.preprocessor_macros
    }

    /// Sets the dictionary of macros, by the number of its object.
    pub fn set_preprocessor_macros(&mut self, macros: u64)
        ensures
            *final(self) == (MTLCompileOptions { preprocessor_macros: macros, ..*old(self) }),
    {
        self.preprocessor_macros = macros;
    }
}

/// Where a constant of a function goes: to a place by number, to a name, or, with others
/// after it, to `length` places from `location` on.
#[derive(Debug, PartialEq, Eq)]
pub enum ConstantTarget {
    Index(u64),
    Name(String),
    Range { location: u64, length: u64 },
}

/// One constant of a function: where it goes, its type, and how many bytes it has.
#[derive(Debug, PartialEq, Eq)]
pub struct Constant {
    pub target: ConstantTarget,
    pub data_type: u64,
    pub length: u64,
}

/// The values that the constants of a function are given, in the order in which they were
/// set.
#[derive(Debug, PartialEq, Eq)]
pub struct MTLFunctionConstantValues {
    pub constants: Vec<Constant>,
}

impl MTLFunctionConstantValues {
    /// No values.
    pub fn new() -> (values: MTLFunctionConstantValues)
        ensures
            values.constants@.len() == 0,
    {
        MTLFunctionConstantValues { constants: Vec::new() }
    }

    /// Gives the constant at place `index` the value in `value`, which is of `data_type`.
    pub fn set_constant_value_at_index(&mut self, value: &[u8], data_type: u64, index: u64)
        ensures
            final(self).constants@ == old(self).constants@.push(
                Constant {
                    target: ConstantTarget::Index(index),
                    data_type,
                    length: value@.len() as u64,
                },
            ),
    {
        self.constants.push(
            Constant {
                target: ConstantTarget::Index(index),
                data_type,
                length: value.len() as u64,
            },
        );
    }

    /// Gives the constant named `name` the value in `value`, which is of `data_type`.
    pub fn set_constant_value_with_name(&mut self, value: &[u8], data_type: u64, name: &str)
        ensures
            final(self).constants@.len() == old(self).constants@.len() + 1,
            final(self).constants@.drop_last() == old(self).constants@,
            final(self).constants@.last().data_type == data_type,
            final(self).constants@.last().length == value@.len() as u64,
            final(self).constants@.last().target matches ConstantTarget::Name(held) && held@
                == name@,
    {
        self.constants.push(
            Constant {
                target: ConstantTarget::Name(String::from_str(name)),
                data_type,
                length: value.len() as u64,
            },
        );
        assert(self.constants@.drop_last() =~= old(self).constants@);
    }

    /// Gives the constants at the places from `range.0` up to, not including, `range.1`
    /// the values in `values`, which are of `data_type`. The native call takes the range as
    /// the first place and the number of places.
    pub fn set_constant_value_with_range(
        &mut self,
        values: &[u8],
        data_type: u64,
        range: (u64, u64),
    )
        requires
            range.0 <= range.1,
        ensures
            final(self).constants@ == old(self).constants@.push(
                Constant {
                    target: ConstantTarget::Range {
                        location: range.0,
                        length: (range.1 - range.0) as u64,
                    },
                    data_type,
                    length: values@.len() as u64,
                },
            ),
    {
        self.constants.push(
            Constant {
                target: ConstantTarget::Range { location: range.0, length: range.1 - range.0 },
                data_type,
                length: values.len() as u64,
            },
        );
    }

    /// Forgets every value.
    pub fn reset(&mut self)
        ensures
            final(self).constants@.len() == 0,
    {
        self.constants.clear();
    }
}

/// A library with `functions` as the native call hands it to its caller.
pub open spec fn library_made(functions: Seq<Seq<char>>) -> ObjectView {
    ObjectView::handed_out(
        ObjectKind::Library,
        Ownership::Owned,
        PayloadView::Library { functions },
    )
}

/// The function `name` of `library` as the native call hands it to its caller.
pub open spec fn function_made(library: u64, name: Seq<char>) -> ObjectView {
    ObjectView::handed_out(
        ObjectKind::Function,
        Ownership::Owned,
        PayloadView::Function { library, name },
    )
}

/// What is said of a function that a library lacks.
pub open spec fn missing_function(name: Seq<char>) -> Seq<char> {
    "This function "@ + name + " does not exist."@
}

impl MTLLibrary {
    /// The names of the functions of the library.
    pub fn get_function_names(&self, driver: &Driver) -> (res: Result<Vec<String>, MetalError>)
        ensures
            match driver@.fault(self.0.0, ObjectKind::Library) {
                Some(e) => res == Err::<Vec<String>, MetalError>(e),
                None => res matches Ok(names) && names@.map_values(|name: String| name@)
                    == driver@.functions(self.0.0),
            },
    {
        match driver.check(self.0.0, ObjectKind::Library) {
            Err(e) => Err(e),
            Ok(()) => Ok(driver.function_names(self.0.0)),
        }
    }

    /// The function named `name`. A library that has none of that name says so.
    pub fn new_function_with_name(&self, driver: &mut Driver, name: &str) -> (res: Result<
        MTLFunction,
        MetalError,
    >)
        ensures
            match old(driver)@.fault(self.0.0, ObjectKind::Library) {
                Some(e) => res == Err::<MTLFunction, MetalError>(
                    e,
                ) && final(driver)@ == old(driver)@,
                None => if !old(driver)@.functions(self.0.0).contains(name@) {
                    &&& res matches Err(MetalError::Diagnostic(message))
                    &&& message@ == missing_function(name@)
                    &&& final(driver)@ == old(driver)@
                } else if old(driver)@.full() {
                    &&& res == Err::<MTLFunction, MetalError>(MetalError::Exhausted)
                    &&& final(driver)@ == old(driver)@
                } else {
                    &&& res == Ok::<MTLFunction, MetalError>(
                        MTLFunction(Handle(old(driver)@.next())),
                    )
                    &&& final(driver)@ == old(driver)@.plus(function_made(self.0.0, name@))
                },
            },
            old(driver)@.leads_to(final(driver)@),
    {
        proof {
            lemma_leads_to_itself(driver@);
            lemma_owned_names();
        }
        match driver.check(self.0.0, ObjectKind::Library) {
            Err(e) => {
                return Err(e);
            },
            Ok(()) => {},
        }
        if !driver.has_function(self.0.0, name) {
            let mut message = String::from_str("This function ");
            message.append(name);
            message.append(" does not exist.");
            return Err(MetalError::Diagnostic(message));
        }
        match driver.make(
            ObjectKind::Function,
            "newFunctionWithName",
            Payload::Function { library: self.0.0, name: String::from_str(name) },
        ) {
            Ok(handle) => Ok(MTLFunction(handle)),
            Err(e) => Err(e),
        }
    }

    /// The function named `name`, its constants given `values`. `refusal` is what the
    /// native layer said against it, if anything: then that is the answer. Without a
    /// refusal, a library that has no function of that name answers with the null handle.
    pub fn new_function_with_name_and_constants(
        &self,
        driver: &mut Driver,
        name: &str,
        values: &MTLFunctionConstantValues,
        refusal: Option<String>,
    ) -> (res: Result<MTLFunction, MetalError>)
        ensures
            match old(driver)@.fault(self.0.0, ObjectKind::Library) {
                Some(e) => res == Err::<MTLFunction, MetalError>(
                    e,
                ) && final(driver)@ == old(driver)@,
                None => match refusal {
                    Some(message) => res == Err::<MTLFunction, MetalError>(
                        MetalError::Diagnostic(message),
                    ) && final(driver)@ == old(driver)@,
                    None => if !old(driver)@.functions(self.0.0).contains(name@) {
                        &&& res == Ok::<MTLFunction, MetalError>(MTLFunction(Handle(0)))
                        &&& final(driver)@ == old(driver)@
                    } else if old(driver)@.full() {
                        &&& res == Err::<MTLFunction, MetalError>(MetalError::Exhausted)
                        &&& final(driver)@ == old(driver)@
                    } else {
                        &&& res == Ok::<MTLFunction, MetalError>(
                            MTLFunction(Handle(old(driver)@.next())),
                        )
                        &&& final(driver)@ == old(driver)@.plus(function_made(self.0.0, name@))
                    },
                },
            },
            old(driver)@.leads_to(final(driver)@),
    {
        proof {
            lemma_leads_to_itself(driver@);
            lemma_owned_names();
        }
        match driver.check(self.0.0, ObjectKind::Library) {
            Err(e) => {
                return Err(e);
            },
            Ok(()) => {},
        }
        match refusal {
            Some(message) => {
                return Err(MetalError::Diagnostic(message));
            },
            None => {},
        }
        if !driver.has_function(self.0.0, name) {
            return Ok(MTLFunction(Handle(0)));
        }
        match driver.make(
            ObjectKind::Function,
            "newFunctionWithName",
            Payload::Function { library: self.0.0, name: String::from_str(name) },
        ) {
            Ok(handle) => Ok(MTLFunction(handle)),
            Err(e) => Err(e),
        }
    }
}

impl MTLFunction {
    /// The name of the function.
    pub fn get_name(&self, driver: &Driver) -> (res: Result<String, MetalError>)
        ensures
            match driver@.fault(self.0.0, ObjectKind::Function) {
                Some(e) => res == Err::<String, MetalError>(e),
                None => res matches Ok(name) && name@ == driver@.function_name(self.0.0),
            },
    {
        match driver.check(self.0.0, ObjectKind::Function) {
            Err(e) => Err(e),
            Ok(()) => Ok(driver.function_name(self.0.0)),
        }
    }
}

} // verus!
