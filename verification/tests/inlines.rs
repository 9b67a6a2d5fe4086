use moon::calls::{ApiCall, Continue};
use moon::consts::{
    LUAJIT_MODE_ENGINE, LUAJIT_MODE_ON, LUA_GLOBALSINDEX, LUA_MULTRET, LUA_REGISTRYINDEX,
    LUA_TBOOLEAN, LUA_TFUNCTION, LUA_TLIGHTUSERDATA, LUA_TNIL, LUA_TNONE, LUA_TNUMBER,
    LUA_TSTRING, LUA_TTABLE, LUA_TTHREAD, LUA_TUSERDATA,
};
use moon::inlines::{
    chunk_after_load, integer_to_int, integer_to_long, length_to_int, luaL_addchar,
    luaL_addsize, luaL_argcheck, luaL_checkint, luaL_checklong, luaL_checkstring, luaL_dofile,
    luaL_doslice, luaL_dostring, luaL_getmetatable, luaL_getn, luaL_loadslice, luaL_opt,
    luaL_optint, luaL_optlong, luaL_optstring, lua_getgccount, lua_getglobal, lua_getref,
    lua_getregistry, lua_isboolean, lua_isfunction, lua_islightuserdata, lua_isnil, lua_isnone,
    lua_isnoneornil, lua_istable, lua_isthread, lua_newtable, lua_pop, lua_pushcfunction,
    lua_pushslice, lua_ref, lua_register, lua_setglobal, lua_strlen, lua_tostring, lua_unref,
    lua_upvalueindex, status_flag, RefPlan,
};

#[test]
fn upvalue_indices_count_down_from_globals() {
    assert_eq!(lua_upvalueindex(1), -10003);
    assert_eq!(lua_upvalueindex(2), -10004);
    assert_eq!(lua_upvalueindex(0), LUA_GLOBALSINDEX);
    assert!(lua_upvalueindex(1) < LUA_GLOBALSINDEX);
}

#[test]
fn pop_sets_top_below_popped_values() {
    assert_eq!(lua_pop(1), ApiCall::SetTop { index: -2 });
    assert_eq!(lua_pop(0), ApiCall::SetTop { index: -1 });
    assert_eq!(lua_pop(3), ApiCall::SetTop { index: -4 });
    assert_eq!(lua_pop(i32::MAX), ApiCall::SetTop { index: i32::MIN });
}

#[test]
fn one_call_helpers() {
    assert_eq!(lua_newtable(), ApiCall::CreateTable { narr: 0, nrec: 0 });
    assert_eq!(lua_pushcfunction(), ApiCall::PushCClosure { nup: 0 });
    assert_eq!(
        lua_register(),
        vec![ApiCall::PushCClosure { nup: 0 }, ApiCall::SetField { index: -10002 }]
    );
    assert_eq!(lua_strlen(-1), ApiCall::ObjLen { index: -1 });
    assert_eq!(lua_setglobal(), ApiCall::SetField { index: LUA_GLOBALSINDEX });
    assert_eq!(lua_getglobal(), ApiCall::GetField { index: LUA_GLOBALSINDEX });
    assert_eq!(lua_tostring(2), ApiCall::ToLString { index: 2 });
    assert_eq!(lua_getregistry(), ApiCall::PushValue { index: -10000 });
    assert_eq!(lua_getgccount(), ApiCall::Gc { what: 3, data: 0 });
    assert_eq!(luaL_getn(1), ApiCall::ObjLen { index: 1 });
    assert_eq!(luaL_getmetatable(), ApiCall::GetField { index: LUA_REGISTRYINDEX });
    assert_eq!(luaL_checkstring(1), ApiCall::CheckLString { arg: 1 });
    assert_eq!(luaL_optstring(2), ApiCall::OptLString { arg: 2 });
    assert_eq!(luaL_checkint(3), ApiCall::CheckInteger { arg: 3 });
    assert_eq!(luaL_optint(4, -5), ApiCall::OptInteger { arg: 4, default: -5 });
    assert_eq!(luaL_checklong(5), ApiCall::CheckInteger { arg: 5 });
    assert_eq!(luaL_optlong(6, 77), ApiCall::OptInteger { arg: 6, default: 77 });
    assert_eq!(lua_unref(12), ApiCall::Unref { table: LUA_REGISTRYINDEX, reference: 12 });
    assert_eq!(lua_getref(12), ApiCall::RawGetI { index: LUA_REGISTRYINDEX, n: 12 });
}

#[test]
fn pushslice_copies_the_bytes() {
    assert_eq!(lua_pushslice(b"abc"), ApiCall::PushLString { bytes: b"abc".to_vec() });
    assert_eq!(lua_pushslice(b""), ApiCall::PushLString { bytes: Vec::new() });
}

#[test]
fn integer_narrowing_drops_high_bits() {
    assert_eq!(integer_to_int(42), 42);
    assert_eq!(integer_to_int(-42), -42);
    assert_eq!(integer_to_long(-9), -9i64 as libc::c_long);
    assert_eq!(length_to_int(7), 7);
    if usize::BITS == 64 {
        assert_eq!(integer_to_int(5_000_000_000i64 as isize), 705_032_704);
        assert_eq!(length_to_int(4_294_967_296u64 as usize), 0);
        assert_eq!(length_to_int(4_294_967_295u64 as usize), -1);
    }
}

#[test]
fn type_tests() {
    assert!(lua_isfunction(LUA_TFUNCTION));
    assert!(!lua_isfunction(LUA_TTABLE));
    assert!(lua_istable(5));
    assert!(lua_islightuserdata(2));
    assert!(!lua_islightuserdata(LUA_TUSERDATA));
    assert!(lua_isnil(0));
    assert!(lua_isboolean(1));
    assert!(lua_isthread(8));
    assert!(lua_isnone(-1));
    assert!(!lua_isnone(LUA_TNIL));
    assert!(lua_isnoneornil(LUA_TNONE));
    assert!(lua_isnoneornil(LUA_TNIL));
    assert!(!lua_isnoneornil(LUA_TNUMBER));
    assert!(!lua_isnoneornil(LUA_TSTRING));
}

#[test]
fn noneornil_is_none_or_nil_on_every_type_code() {
    for t in LUA_TNONE..=LUA_TTHREAD {
        assert_eq!(lua_isnoneornil(t), lua_isnone(t) || lua_isnil(t));
    }
    // below LUA_TNONE no type code exists, and the two sides differ
    assert!(lua_isnoneornil(-2) && !(lua_isnone(-2) || lua_isnil(-2)));
}

#[test]
fn type_tests_exclude_one_another() {
    for t in -3..12 {
        let hits = [
            lua_isnone(t),
            lua_isnil(t),
            lua_isboolean(t),
            lua_islightuserdata(t),
            lua_istable(t),
            lua_isfunction(t),
            lua_isthread(t),
        ]
        .iter()
        .filter(|b| **b)
        .count();
        assert!(hits <= 1);
    }
    assert!(lua_isboolean(LUA_TBOOLEAN) && !lua_isnil(LUA_TBOOLEAN));
}

#[test]
fn argcheck_raises_only_on_false_condition() {
    assert_eq!(luaL_argcheck(1, 2), Continue::Done(1));
    assert_eq!(luaL_argcheck(-7, 2), Continue::Done(1));
    assert_eq!(luaL_argcheck(0, 2), Continue::Then(ApiCall::ArgError { numarg: 2 }));
    assert_eq!(status_flag(0), 0);
    assert_eq!(status_flag(3), 1);
    assert_eq!(status_flag(-1), 1);
}

#[test]
fn running_chunks() {
    assert_eq!(luaL_dofile(), ApiCall::LoadFile);
    assert_eq!(luaL_dostring(), ApiCall::LoadString);
    let load = luaL_loadslice(b"return 1");
    assert_eq!(
        load,
        ApiCall::LoadBuffer { bytes: b"return 1".to_vec(), chunkname: b"slice\0".to_vec() }
    );
    assert_eq!(luaL_doslice(b"return 1"), load);
    assert_eq!(chunk_after_load(3), Continue::Done(1));
    assert_eq!(
        chunk_after_load(0),
        Continue::Then(ApiCall::PCall { nargs: 0, nresults: LUA_MULTRET, errfunc: 0 })
    );
}

#[test]
fn chunk_result_is_one_when_either_step_fails() {
    for load in [0, 1, 3] {
        for call in [0, 2] {
            let result = match chunk_after_load(load) {
                Continue::Done(v) => v,
                Continue::Then(_) => status_flag(call),
            };
            assert_eq!(result, if load != 0 || call != 0 { 1 } else { 0 });
        }
    }
}

#[test]
fn opt_uses_default_for_absent_argument() {
    assert_eq!(luaL_opt(LUA_TNONE, || 10, 5), 5);
    assert_eq!(luaL_opt(LUA_TNIL, || 10, 5), 5);
    assert_eq!(luaL_opt(LUA_TNUMBER, || 10, 5), 10);
    let mut called = false;
    let r = luaL_opt(LUA_TNIL, || { called = true; 1 }, 2);
    assert_eq!(r, 2);
    assert!(!called);
}

#[test]
fn addchar_flushes_when_full_and_stores_low_byte() {
    let a = luaL_addchar(3, 8, 'A');
    assert!(!a.flush);
    assert_eq!(a.write_at, 3);
    assert_eq!(a.byte, 65 as libc::c_char);
    assert_eq!(a.next, 4);
    let full = luaL_addchar(8, 8, 'z');
    assert!(full.flush);
    assert_eq!(full.write_at, 8);
    assert_eq!(full.next, 9);
    assert_eq!(full.byte, b'z' as libc::c_char);
    let last = luaL_addchar(7, 8, 'y');
    assert!(!last.flush);
    assert_eq!(last.write_at, 7);
    assert_eq!(last.next, 8);
    let far = luaL_addchar(9000, 8192, 'x');
    assert!(far.flush);
    assert_eq!((far.write_at, far.next), (9000, 9001));
    assert_eq!(luaL_addchar(0, 8, '\u{e9}').byte, 0xe9u8 as libc::c_char);
    assert_eq!(luaL_addchar(0, 8, '\u{20ac}').byte, 0xacu8 as libc::c_char);
}

#[test]
fn addsize_moves_the_position() {
    assert_eq!(luaL_addsize(2, 5, 10), 7);
    assert_eq!(luaL_addsize(7, -7, 10), 0);
    assert_eq!(luaL_addsize(10, 0, 10), 10);
}

#[test]
fn locked_references_go_to_the_registry() {
    assert_eq!(lua_ref(true), RefPlan::Reference(ApiCall::Ref { table: LUA_REGISTRYINDEX }));
    assert_eq!(
        lua_ref(false),
        RefPlan::Obsolete(vec![
            ApiCall::PushLString { bytes: b"unlocked references are obsolete".to_vec() },
            ApiCall::Error,
        ])
    );
}

#[test]
fn jit_mode_flags() {
    assert_eq!(LUAJIT_MODE_ENGINE | LUAJIT_MODE_ON, 0x0100);
}

#[test]
fn truth_of_toboolean_results() {
    assert!(!moon::convert::to_bool(0));
    assert!(moon::convert::to_bool(1));
    assert!(moon::convert::to_bool(-3));
}

const SAMPLE_1: &[u8] = br#"
-- Receives a table, returns the sum of its components.
x = 0
for i = 1, #foo do
  x = x + foo[i]
end
return x
"#;

#[test]
fn sample_chunk_call_plan() {
    // the calls the LuaJIT smoke test makes, as the helpers describe them
    assert_eq!(LUAJIT_MODE_ENGINE | LUAJIT_MODE_ON, 0x0100);
    assert_eq!(
        luaL_loadslice(SAMPLE_1),
        ApiCall::LoadBuffer { bytes: SAMPLE_1.to_vec(), chunkname: b"slice\0".to_vec() }
    );
    assert_eq!(lua_newtable(), ApiCall::CreateTable { narr: 0, nrec: 0 });
    const FOO: &[u8] = b"foo\0";
    assert_eq!(FOO.len(), 4);
    assert_eq!(lua_setglobal(), ApiCall::SetField { index: LUA_GLOBALSINDEX });
    assert_eq!(lua_pop(1), ApiCall::SetTop { index: -2 });
}
