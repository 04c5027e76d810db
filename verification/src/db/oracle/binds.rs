//! Bind lists.
use vstd::prelude::*;
use crate::db::oracle::script::Bind;

verus! {

/// No bind values, in order.
pub fn binds0() -> (r: Vec<Bind>)
    ensures
        r@ == Seq::<Bind>::empty(),
{
    let v: Vec<Bind> = Vec::new();
    v
}

/// One bind value.
pub fn binds1(a: Bind) -> (r: Vec<Bind>)
    ensures
        r@ == seq![a],
{
    let mut v: Vec<Bind> = Vec::new();
    v.push(a);
    v
}

/// Two bind values, in order.
pub fn binds2(a: Bind, b: Bind) -> (r: Vec<Bind>)
    ensures
        r@ == seq![a, b],
{
    let mut v: Vec<Bind> = Vec::new();
    v.push(a);
    v.push(b);
    v
}

/// Three bind values, in order.
pub fn binds3(a: Bind, b: Bind, c: Bind) -> (r: Vec<Bind>)
    ensures
        r@ == seq![a, b, c],
{
    let mut v: Vec<Bind> = Vec::new();
    v.push(a);
    v.push(b);
    v.push(c);
    v
}

/// Four bind values, in order.
pub fn binds4(a: Bind, b: Bind, c: Bind, d: Bind) -> (r: Vec<Bind>)
    ensures
        r@ == seq![a, b, c, d],
{
    let mut v: Vec<Bind> = Vec::new();
    v.push(a);
    v.push(b);
    v.push(c);
    v.push(d);
    v
}

/// Five bind values, in order.
pub fn binds5(a: Bind, b: Bind, c: Bind, d: Bind, e: Bind) -> (r: Vec<Bind>)
    ensures
        r@ == seq![a, b, c, d, e],
{
    let mut v: Vec<Bind> = Vec::new();
    v.push(a);
    v.push(b);
    v.push(c);
    v.push(d);
    v.push(e);
    v
}

/// Six bind values, in order.
pub fn binds6(a: Bind, b: Bind, c: Bind, d: Bind, e: Bind, f: Bind) -> (r: Vec<Bind>)
    ensures
        r@ == seq![a, b, c, d, e, f],
{
    let mut v: Vec<Bind> = Vec::new();
    v.push(a);
    v.push(b);
    v.push(c);
    v.push(d);
    v.push(e);
    v.push(f);
    v
}

/// Seven bind values, in order.
pub fn binds7(a: Bind, b: Bind, c: Bind, d: Bind, e: Bind, f: Bind, g: Bind) -> (r: Vec<Bind>)
    ensures
        r@ == seq![a, b, c, d, e, f, g],
{
    let mut v: Vec<Bind> = Vec::new();
    v.push(a);
    v.push(b);
    v.push(c);
    v.push(d);
    v.push(e);
    v.push(f);
    v.push(g);
    v
}

/// Eight bind values, in order.
#[allow(clippy::too_many_arguments)]
pub fn binds8(
    a: Bind,
    b: Bind,
    c: Bind,
    d: Bind,
    e: Bind,
    f: Bind,
    g: Bind,
    h: Bind,
) -> (r: Vec<Bind>)
    ensures
        r@ == seq![a, b, c, d, e, f, g, h],
{
    let mut v: Vec<Bind> = Vec::new();
    v.push(a);
    v.push(b);
    v.push(c);
    v.push(d);
    v.push(e);
    v.push(f);
    v.push(g);
    v.push(h);
    v
}

/// Nine bind values, in order.
#[allow(clippy::too_many_arguments)]
pub fn binds9(
    a: Bind,
    b: Bind,
    c: Bind,
    d: Bind,
    e: Bind,
    f: Bind,
    g: Bind,
    h: Bind,
    i: Bind,
) -> (r: Vec<Bind>)
    ensures
        r@ == seq![a, b, c, d, e, f, g, h, i],
{
    let mut v: Vec<Bind> = Vec::new();
    v.push(a);
    v.push(b);
    v.push(c);
    v.push(d);
    v.push(e);
    v.push(f);
    v.push(g);
    v.push(h);
    v.push(i);
    v
}

/// Ten bind values, in order.
#[allow(clippy::too_many_arguments)]
pub fn binds10(
    a: Bind,
    b: Bind,
    c: Bind,
    d: Bind,
    e: Bind,
    f: Bind,
    g: Bind,
    h: Bind,
    i: Bind,
    j: Bind,
) -> (r: Vec<Bind>)
    ensures
        r@ == seq![a, b, c, d, e, f, g, h, i, j],
{
    let mut v: Vec<Bind> = Vec::new();
    v.push(a);
    v.push(b);
    v.push(c);
    v.push(d);
    v.push(e);
    v.push(f);
    v.push(g);
    v.push(h);
    v.push(i);
    v.push(j);
    v
}

/// Eleven bind values, in order.
#[allow(clippy::too_many_arguments)]
pub fn binds11(
    a: Bind,
    b: Bind,
    c: Bind,
    d: Bind,
    e: Bind,
    f: Bind,
    g: Bind,
    h: Bind,
    i: Bind,
    j: Bind,
    k: Bind,
) -> (r: Vec<Bind>)
    ensures
        r@ == seq![a, b, c, d, e, f, g, h, i, j, k],
{
    let mut v: Vec<Bind> = Vec::new();
    v.push(a);
    v.push(b);
    v.push(c);
    v.push(d);
    v.push(e);
    v.push(f);
    v.push(g);
    v.push(h);
    v.push(i);
    v.push(j);
    v.push(k);
    v
}

/// Thirteen bind values, in order.
#[allow(clippy::too_many_arguments)]
pub fn binds13(
    a: Bind,
    b: Bind,
    c: Bind,
    d: Bind,
    e: Bind,
    f: Bind,
    g: Bind,
    h: Bind,
    i: Bind,
    j: Bind,
    k: Bind,
    l: Bind,
    m: Bind,
) -> (r: Vec<Bind>)
    ensures
        r@ == seq![a, b, c, d, e, f, g, h, i, j, k, l, m],
{
    let mut v: Vec<Bind> = Vec::new();
    v.push(a);
    v.push(b);
    v.push(c);
    v.push(d);
    v.push(e);
    v.push(f);
    v.push(g);
    v.push(h);
    v.push(i);
    v.push(j);
    v.push(k);
    v.push(l);
    v.push(m);
    v
}

/// Fifteen bind values, in order.
#[allow(clippy::too_many_arguments)]
pub fn binds15(
    a: Bind,
    b: Bind,
    c: Bind,
    d: Bind,
    e: Bind,
    f: Bind,
    g: Bind,
    h: Bind,
    i: Bind,
    j: Bind,
    k: Bind,
    l: Bind,
    m: Bind,
    n: Bind,
    o: Bind,
) -> (r: Vec<Bind>)
    ensures
        r@ == seq![a, b, c, d, e, f, g, h, i, j, k, l, m, n, o],
{
    let mut v: Vec<Bind> = Vec::new();
    v.push(a);
    v.push(b);
    v.push(c);
    v.push(d);
    v.push(e);
    v.push(f);
    v.push(g);
    v.push(h);
    v.push(i);
    v.push(j);
    v.push(k);
    v.push(l);
    v.push(m);
    v.push(n);
    v.push(o);
    v
}

} // verus!
