# daft-dsl

An expression language over the columns of a table, verified with Verus.

`src/` is the library. Expressions are built, taken apart and rebuilt, named, typed over a schema,
identified by what they compute, displayed and written as SQL. Each function states what it
returns over the values of its arguments, and the laws that hold between the functions stand
beside them as public proof functions.

Some facts only the engine that runs the expressions knows: how two data types combine, how a
literal is written, which field a function call yields. The library asks for them. A function that
needs such facts takes the `Replies` known so far and stops with `Halt::Ask` where one is missing;
the caller asks the engine, records the reply and calls again. More replies never change a result
that is already decided, nothing is asked twice, and an expression asks an engine only finitely
many questions.

`app/` runs that loop against an `Engine` and holds what lies outside the library: floating-point
arguments, printing, and the stored form of expressions. `tests/` runs the library with small
engines of its own.
