use vstd::prelude::*;

verus! {

/// The tag of a runtime value.
#[derive(PartialEq, Eq, Structural, Debug, Clone, Copy)]
pub enum Kind {
    ValueInt,
    ValueBool,
    Undefined,
}

/// A runtime value. `Undefined` stands for an expression whose evaluation
/// rule did not apply to the operands it was given.
#[derive(PartialEq, Eq, Structural, Debug, Clone, Copy)]
pub enum Val {
    Int(i32),
    Bool(bool),
    Undefined,
}

/// A static type. `TyIllTyped` marks an expression for which no type could be
/// derived; it poisons every enclosing rule.
#[derive(PartialEq, Eq, Structural, Debug, Clone, Copy)]
pub enum Type {
    TyIllTyped,
    TyInt,
    TyBool,
}

/// The tag of `v`.
pub open spec fn kind_of(v: Val) -> Kind {
    match v {
        Val::Int(_) => Kind::ValueInt,
        Val::Bool(_) => Kind::ValueBool,
        Val::Undefined => Kind::Undefined,
    }
}

impl Val {
    /// The integer value `x`.
    pub fn mk_int(x: &i32) -> (r: Val)
        ensures
            r == Val::Int(*x),
    {
        Val::Int(*x)
    }

    /// The boolean value `x`.
    pub fn mk_bool(x: &bool) -> (r: Val)
        ensures
            r == Val::Bool(*x),
    {
        Val::Bool(*x)
    }

    /// The undefined value.
    pub fn mk_undefined() -> (r: Val)
        ensures
            r == Val::Undefined,
    {
        Val::Undefined
    }

    /// The tag of this value.
    pub fn kind(&self) -> (r: Kind)
        ensures
            r == kind_of(*self),
    {
        match self {
            Val::Int(_) => Kind::ValueInt,
            Val::Bool(_) => Kind::ValueBool,
            Val::Undefined => Kind::Undefined,
        }
    }
}

/// `a + b` on values: wrapping 32-bit addition of two integers.
pub open spec fn sum_val(a: Val, b: Val) -> Val {
    match (a, b) {
        (Val::Int(x), Val::Int(y)) => Val::Int(x.wrapping_add(y)),
        _ => Val::Undefined,
    }
}

/// `a * b` on values: wrapping 32-bit multiplication of two integers.
pub open spec fn product_val(a: Val, b: Val) -> Val {
    match (a, b) {
        (Val::Int(x), Val::Int(y)) => Val::Int(x.wrapping_mul(y)),
        _ => Val::Undefined,
    }
}

/// `a && b` on values, defined on two booleans.
pub open spec fn conj_val(a: Val, b: Val) -> Val {
    match (a, b) {
        (Val::Bool(x), Val::Bool(y)) => Val::Bool(x && y),
        _ => Val::Undefined,
    }
}

/// `a || b` on values, defined on two booleans.
pub open spec fn disj_val(a: Val, b: Val) -> Val {
    match (a, b) {
        (Val::Bool(x), Val::Bool(y)) => Val::Bool(x || y),
        _ => Val::Undefined,
    }
}

/// `a == b` on values, defined on two integers or on two booleans.
pub open spec fn equals_val(a: Val, b: Val) -> Val {
    match (a, b) {
        (Val::Int(x), Val::Int(y)) => Val::Bool(x == y),
        (Val::Bool(x), Val::Bool(y)) => Val::Bool(x == y),
        _ => Val::Undefined,
    }
}

/// `a < b` on values, defined on two integers.
pub open spec fn less_val(a: Val, b: Val) -> Val {
    match (a, b) {
        (Val::Int(x), Val::Int(y)) => Val::Bool(x < y),
        _ => Val::Undefined,
    }
}

/// `!a` on values, defined on a boolean.
pub open spec fn negate_val(a: Val) -> Val {
    match a {
        Val::Bool(x) => Val::Bool(!x),
        _ => Val::Undefined,
    }
}

impl Val {
    /// `self + other`.
    pub fn sum(&self, other: &Val) -> (r: Val)
        ensures
            r == sum_val(*self, *other),
    {
        match (self, other) {
            (Val::Int(x), Val::Int(y)) => Val::Int(x.wrapping_add(*y)),
            _ => Val::Undefined,
        }
    }

    /// `self * other`.
    pub fn product(&self, other: &Val) -> (r: Val)
        ensures
            r == product_val(*self, *other),
    {
        match (self, other) {
            (Val::Int(x), Val::Int(y)) => Val::Int(x.wrapping_mul(*y)),
            _ => Val::Undefined,
        }
    }

    /// `self && other`.
    pub fn conj(&self, other: &Val) -> (r: Val)
        ensures
            r == conj_val(*self, *other),
    {
        match (self, other) {
            (Val::Bool(x), Val::Bool(y)) => Val::Bool(*x && *y),
            _ => Val::Undefined,
        }
    }

    /// `self || other`.
    pub fn disj(&self, other: &Val) -> (r: Val)
        ensures
            r == disj_val(*self, *other),
    {
        match (self, other) {
            (Val::Bool(x), Val::Bool(y)) => Val::Bool(*x || *y),
            _ => Val::Undefined,
        }
    }

    /// `self == other`.
    pub fn equals(&self, other: &Val) -> (r: Val)
        ensures
            r == equals_val(*self, *other),
    {
        match (self, other) {
            (Val::Int(x), Val::Int(y)) => Val::Bool(*x == *y),
            (Val::Bool(x), Val::Bool(y)) => Val::Bool(*x == *y),
            _ => Val::Undefined,
        }
    }

    /// `self < other`.
    pub fn less_than(&self, other: &Val) -> (r: Val)
        ensures
            r == less_val(*self, *other),
    {
        match (self, other) {
            (Val::Int(x), Val::Int(y)) => Val::Bool(*x < *y),
            _ => Val::Undefined,
        }
    }

    /// `!self`.
    pub fn negate(&self) -> (r: Val)
        ensures
            r == negate_val(*self),
    {
        match self {
            Val::Bool(x) => Val::Bool(!*x),
            _ => Val::Undefined,
        }
    }
}

/// Typing rule of `+` and `*`: two integers give an integer.
pub open spec fn arith_rule(a: Type, b: Type) -> Type {
    if a == Type::TyInt && b == Type::TyInt {
        Type::TyInt
    } else {
        Type::TyIllTyped
    }
}

/// Typing rule of `&&` and `||`: two booleans give a boolean.
pub open spec fn logic_rule(a: Type, b: Type) -> Type {
    if a == Type::TyBool && b == Type::TyBool {
        Type::TyBool
    } else {
        Type::TyIllTyped
    }
}

/// Typing rule of `==`: two operands of one type, integer or boolean, give
/// that same type (not necessarily a boolean).
pub open spec fn equality_rule(a: Type, b: Type) -> Type {
    if a == b && a != Type::TyIllTyped {
        a
    } else {
        Type::TyIllTyped
    }
}

/// Typing rule of `<`: two integers give a boolean.
pub open spec fn less_rule(a: Type, b: Type) -> Type {
    if a == Type::TyInt && b == Type::TyInt {
        Type::TyBool
    } else {
        Type::TyIllTyped
    }
}

/// Typing rule of `!`: a boolean gives a boolean.
pub open spec fn negate_rule(a: Type) -> Type {
    if a == Type::TyBool {
        Type::TyBool
    } else {
        Type::TyIllTyped
    }
}

impl Type {
    /// The type of `+` or `*` on operands of these types.
    pub fn arith(&self, other: &Type) -> (r: Type)
        ensures
            r == arith_rule(*self, *other),
    {
        match (self, other) {
            (Type::TyInt, Type::TyInt) => Type::TyInt,
            _ => Type::TyIllTyped,
        }
    }

    /// The type of `&&` or `||` on operands of these types.
    pub fn logic(&self, other: &Type) -> (r: Type)
        ensures
            r == logic_rule(*self, *other),
    {
        match (self, other) {
            (Type::TyBool, Type::TyBool) => Type::TyBool,
            _ => Type::TyIllTyped,
        }
    }

    /// The type of `==` on operands of these types.
    pub fn equality(&self, other: &Type) -> (r: Type)
        ensures
            r == equality_rule(*self, *other),
    {
        match (self, other) {
            (Type::TyBool, Type::TyBool) => Type::TyBool,
            (Type::TyInt, Type::TyInt) => Type::TyInt,
            _ => Type::TyIllTyped,
        }
    }

    /// The type of `<` on operands of these types.
    pub fn less(&self, other: &Type) -> (r: Type)
        ensures
            r == less_rule(*self, *other),
    {
        match (self, other) {
            (Type::TyInt, Type::TyInt) => Type::TyBool,
            _ => Type::TyIllTyped,
        }
    }

    /// The type of `!` on an operand of this type.
    pub fn negate(&self) -> (r: Type)
        ensures
            r == negate_rule(*self),
    {
        match self {
            Type::TyBool => Type::TyBool,
            _ => Type::TyIllTyped,
        }
    }
}

} // verus!
